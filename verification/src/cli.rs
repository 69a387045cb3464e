use vstd::prelude::*;

use crate::lines::string_views;
use crate::server::{edge_error, spec_parse_edge, Edge};
use crate::text::{spec_trim, str_eq, trim, utf8};
use crate::uri_list::{bytes_eq_ignore_ascii_case, eq_ignore_ascii_case};

verus! {

/// What the program is asked to run.
pub enum Command {
    Server { bind: String, edge: Edge },
    Client { server: String },
}

/// The argument after the first `key` that has one.
pub open spec fn spec_value_after(args: Seq<Seq<char>>, key: Seq<char>) -> Option<Seq<char>>
    decreases args.len(),
{
    if args.len() < 2 {
        None
    } else if args[0] == key {
        Some(args[1])
    } else {
        spec_value_after(args.drop_first(), key)
    }
}

/// The argument after the first `key` that has one.
pub fn value_after(args: &[String], key: &str) -> (r: Option<String>)
    ensures
        match spec_value_after(string_views(args@), key@) {
            Some(v) => r matches Some(s) && s@ == v,
            None => r is None,
        },
{
    let ghost all = string_views(args@);
    let mut i: usize = 0;
    assert(all.skip(0) =~= all);
    while i < args.len() && args.len() - i >= 2
        invariant
            all == string_views(args@),
            i <= args@.len(),
            spec_value_after(all, key@) == spec_value_after(all.skip(i as int), key@),
        decreases args@.len() - i,
    {
        let ghost rest = all.skip(i as int);
        assert(rest[0] == args@[i as int]@);
        assert(rest[1] == args@[i + 1]@);
        assert(rest.drop_first() =~= all.skip(i + 1));
        if str_eq(args[i].as_str(), key) {
            return Some(args[i + 1].clone());
        }
        i = i + 1;
    }
    None
}

/// Whether help is asked for: some argument is `-h` or `--help`.
pub open spec fn spec_wants_help(args: Seq<Seq<char>>) -> bool {
    exists|i: int| 0 <= i < args.len() && (args[i] == "-h"@ || args[i] == "--help"@)
}

pub fn wants_help(args: &[String]) -> (r: bool)
    ensures
        r == spec_wants_help(string_views(args@)),
{
    let ghost all = string_views(args@);
    let mut i: usize = 0;
    while i < args.len()
        invariant
            all == string_views(args@),
            i <= args@.len(),
            forall|j: int| 0 <= j < i ==> !(all[j] == "-h"@ || all[j] == "--help"@),
        decreases args@.len() - i,
    {
        assert(all[i as int] == args@[i as int]@);
        if str_eq(args[i].as_str(), "-h") || str_eq(args[i].as_str(), "--help") {
            return true;
        }
        i = i + 1;
    }
    false
}

pub open spec fn missing_command_error() -> Seq<char> {
    "missing command: server or client"@
}

pub open spec fn missing_server_error() -> Seq<char> {
    "client mode requires --server HOST:PORT"@
}

/// The command the arguments (without the program name) ask for:
/// `server [--bind ADDR] [--edge left|right]` or `client --server ADDR`.
pub fn parse_args(args: &[String]) -> (r: Result<Command, String>)
    ensures
        ({
            let a = string_views(args@);
            if a.len() > 0 && a[0] == "server"@ {
                let edge = match spec_value_after(a, "--edge"@) {
                    Some(v) => spec_parse_edge(v),
                    None => Some(Edge::Right),
                };
                match edge {
                    Some(e) => r matches Ok(Command::Server { bind, edge: f }) && f == e && bind@ == (match spec_value_after(a, "--bind"@) {
                        Some(b) => b,
                        None => "0.0.0.0:24920"@,
                    }),
                    None => r matches Err(m) && m@ == edge_error(),
                }
            } else if a.len() > 0 && a[0] == "client"@ {
                match spec_value_after(a, "--server"@) {
                    Some(s) => r matches Ok(Command::Client { server }) && server@ == s,
                    None => r matches Err(m) && m@ == missing_server_error(),
                }
            } else {
                r matches Err(m) && m@ == missing_command_error()
            }
        }),
{
    let ghost a = string_views(args@);
    if args.len() > 0 {
        assert(a[0] == args@[0]@);
    }
    if args.len() > 0 && str_eq(args[0].as_str(), "server") {
        let bind = match value_after(args, "--bind") {
            Some(b) => b,
            None => String::from_str("0.0.0.0:24920"),
        };
        let edge = match value_after(args, "--edge") {
            Some(v) => match Edge::parse(v.as_str()) {
                Ok(e) => e,
                Err(m) => return Err(m),
            },
            None => Edge::Right,
        };
        Ok(Command::Server { bind, edge })
    } else if args.len() > 0 && str_eq(args[0].as_str(), "client") {
        match value_after(args, "--server") {
            Some(server) => Ok(Command::Client { server }),
            None => Err(String::from_str("client mode requires --server HOST:PORT")),
        }
    } else {
        Err(String::from_str("missing command: server or client"))
    }
}

/// The bytes of `stop`.
pub open spec fn stop_word() -> Seq<u8> {
    seq![0x73u8, 0x74, 0x6f, 0x70]
}

/// Whether a line from the settings window asks the session to stop: the
/// word `stop` in any letter case, with white space around it allowed.
pub fn is_stop_command(line: &str) -> (r: bool)
    ensures
        r == eq_ignore_ascii_case(utf8(spec_trim(line@)), stop_word()),
{
    let t = trim(line);
    let mut word: Vec<u8> = Vec::new();
    word.push(0x73);
    word.push(0x74);
    word.push(0x6f);
    word.push(0x70);
    assert(word@ =~= stop_word());
    bytes_eq_ignore_ascii_case(t.as_bytes(), word.as_slice())
}

} // verus!
