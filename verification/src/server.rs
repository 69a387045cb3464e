use vstd::prelude::*;

use crate::text::str_eq;

verus! {

/// The side of the server's screen that leads to the client.
#[derive(Debug, Clone, Copy, PartialEq, Eq, Structural)]
pub enum Edge {
    Left,
    Right,
}

pub open spec fn spec_parse_edge(v: Seq<char>) -> Option<Edge> {
    if v == "left"@ {
        Some(Edge::Left)
    } else if v == "right"@ {
        Some(Edge::Right)
    } else {
        None
    }
}

pub open spec fn edge_name(e: Edge) -> Seq<char> {
    match e {
        Edge::Left => "left"@,
        Edge::Right => "right"@,
    }
}

/// The message given for an edge that is neither "left" nor "right".
pub open spec fn edge_error() -> Seq<char> {
    "edge must be left or right"@
}

impl Edge {
    /// Parses "left" or "right".
    pub fn parse(value: &str) -> (r: Result<Edge, String>)
        ensures
            match (r, spec_parse_edge(value@)) {
                (Ok(e), Some(f)) => e == f,
                (Err(msg), None) => msg@ == edge_error(),
                _ => false,
            },
    {
        if str_eq(value, "left") {
            Ok(Edge::Left)
        } else if str_eq(value, "right") {
            Ok(Edge::Right)
        } else {
            Err("edge must be left or right".to_owned())
        }
    }

    /// The name the edge is written under.
    pub fn as_str(self) -> (r: &'static str)
        ensures
            r@ == edge_name(self),
    {
        match self {
            Edge::Left => "left",
            Edge::Right => "right",
        }
    }
}

/// What the server is started with.
#[derive(Debug, Clone)]
pub struct ServerConfig {
    pub bind: String,
    pub edge: Edge,
}

/// An edge's name parses back to that edge.
pub proof fn law_edge_name_roundtrip(e: Edge)
    ensures
        spec_parse_edge(edge_name(e)) == Some(e),
{
    reveal_strlit("left");
    reveal_strlit("right");
    assert("right"@[0] != "left"@[0]);
}

} // verus!
