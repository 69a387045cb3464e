use vstd::prelude::*;

use crate::config::{modifier_target_name, Role};
use crate::config_file::ConfigSettings;
use crate::lines::string_views;
use crate::server::edge_name;

verus! {

/// The decimal digits of a number.
pub open spec fn decimal(n: nat) -> Seq<char>
    decreases n,
{
    if n < 10 {
        seq![digit_char(n)]
    } else {
        decimal(n / 10) + seq![digit_char(n % 10)]
    }
}

pub open spec fn digit_char(d: nat) -> char {
    if d == 0 { '0' } else if d == 1 { '1' } else if d == 2 { '2' } else if d == 3 { '3' } else if d == 4 { '4' }
    else if d == 5 { '5' } else if d == 6 { '6' } else if d == 7 { '7' } else if d == 8 { '8' } else { '9' }
}

fn digit_str(d: u64) -> (r: &'static str)
    requires
        d < 10,
    ensures
        r@ == seq![digit_char(d as nat)],
{
    proof {
        reveal_strlit("0");
        reveal_strlit("1");
        reveal_strlit("2");
        reveal_strlit("3");
        reveal_strlit("4");
        reveal_strlit("5");
        reveal_strlit("6");
        reveal_strlit("7");
        reveal_strlit("8");
        reveal_strlit("9");
    }
    if d == 0 { "0" } else if d == 1 { "1" } else if d == 2 { "2" } else if d == 3 { "3" } else if d == 4 { "4" }
    else if d == 5 { "5" } else if d == 6 { "6" } else if d == 7 { "7" } else if d == 8 { "8" } else { "9" }
}

/// A number written in decimal.
pub fn u64_to_decimal(n: u64) -> (r: String)
    ensures
        r@ == decimal(n as nat),
    decreases n,
{
    if n < 10 {
        String::from_str(digit_str(n))
    } else {
        let mut s = u64_to_decimal(n / 10);
        s.append(digit_str(n % 10));
        s
    }
}

/// The scroll fractions as the text they are passed on as.
pub struct ScrollTexts {
    pub scale: String,
    pub response: String,
    pub max_step: String,
}

/// How the service process is started: its arguments and the environment
/// it is given.
pub struct ServiceLaunch {
    pub args: Vec<String>,
    pub env: Vec<(String, String)>,
}

pub open spec fn pair_views(v: Seq<(String, String)>) -> Seq<(Seq<char>, Seq<char>)> {
    v.map_values(|p: (String, String)| (p.0@, p.1@))
}

/// The arguments a configuration starts the service with.
pub open spec fn spec_launch_args(c: crate::config_file::ConfigModel) -> Seq<Seq<char>> {
    match c.role {
        Role::Server => seq!["server"@, "--bind"@, c.bind, "--edge"@, edge_name(c.edge)],
        Role::Client => seq!["client"@, "--server"@, c.server],
    }
}

/// The environment a configuration starts the service with: the macOS
/// modifier mapping for a server, the scroll settings for a client.
pub open spec fn spec_launch_env(
    c: crate::config_file::ConfigModel,
    scale: Seq<char>,
    response: Seq<char>,
    max_step: Seq<char>,
) -> Seq<(Seq<char>, Seq<char>)> {
    match c.role {
        Role::Server => seq![
            ("DESKBRIDGE_MAC_COMMAND_MAPPING"@, modifier_target_name(c.mac_command_mapping)),
            ("DESKBRIDGE_MAC_CONTROL_MAPPING"@, modifier_target_name(c.mac_control_mapping)),
            ("DESKBRIDGE_MAC_OPTION_MAPPING"@, modifier_target_name(c.mac_option_mapping)),
        ],
        Role::Client => seq![
            ("DESKBRIDGE_SCROLL_SCALE"@, scale),
            ("DESKBRIDGE_SCROLL_RESPONSE"@, response),
            ("DESKBRIDGE_SCROLL_MAX_STEP"@, max_step),
            ("DESKBRIDGE_SCROLL_FRAME_MS"@, decimal(c.scroll_frame_ms as nat)),
        ],
    }
}

/// Strings joined with single spaces.
pub open spec fn join_spaces(parts: Seq<Seq<char>>) -> Seq<char>
    decreases parts.len(),
{
    if parts.len() == 0 {
        seq![]
    } else if parts.len() == 1 {
        parts[0]
    } else {
        join_spaces(parts.drop_last()) + seq![' '] + parts.last()
    }
}

fn owned(s: &str) -> (r: String)
    ensures
        r@ == s@,
{
    String::from_str(s)
}

impl ServiceLaunch {
    /// How the service is started for a configuration, the scroll
    /// fractions given as text.
    pub fn from_config(config: &ConfigSettings, scroll: &ScrollTexts) -> (r: ServiceLaunch)
        ensures
            string_views(r.args@) == spec_launch_args(config@),
            pair_views(r.env@) == spec_launch_env(config@, scroll.scale@, scroll.response@, scroll.max_step@),
    {
        let mut args: Vec<String> = Vec::new();
        let mut env: Vec<(String, String)> = Vec::new();
        match config.role {
            Role::Server => {
                args.push(owned("server"));
                args.push(owned("--bind"));
                args.push(config.bind.clone());
                args.push(owned("--edge"));
                args.push(owned(config.edge.as_str()));
                env.push((owned("DESKBRIDGE_MAC_COMMAND_MAPPING"), owned(config.mac_command_mapping.as_str())));
                env.push((owned("DESKBRIDGE_MAC_CONTROL_MAPPING"), owned(config.mac_control_mapping.as_str())));
                env.push((owned("DESKBRIDGE_MAC_OPTION_MAPPING"), owned(config.mac_option_mapping.as_str())));
            },
            Role::Client => {
                args.push(owned("client"));
                args.push(owned("--server"));
                args.push(config.server.clone());
                env.push((owned("DESKBRIDGE_SCROLL_SCALE"), scroll.scale.clone()));
                env.push((owned("DESKBRIDGE_SCROLL_RESPONSE"), scroll.response.clone()));
                env.push((owned("DESKBRIDGE_SCROLL_MAX_STEP"), scroll.max_step.clone()));
                env.push((owned("DESKBRIDGE_SCROLL_FRAME_MS"), u64_to_decimal(config.scroll_frame_ms)));
            },
        }
        assert(string_views(args@) =~= spec_launch_args(config@));
        assert(pair_views(env@) =~= spec_launch_env(config@, scroll.scale@, scroll.response@, scroll.max_step@));
        ServiceLaunch { args, env }
    }

    /// The command line as the user would type it.
    pub fn preview(&self) -> (r: String)
        ensures
            r@ == seq!['d', 'e', 's', 'k', 'b', 'r', 'i', 'd', 'g', 'e', ' '] + join_spaces(string_views(self.args@)),
    {
        let mut out = String::from_str("deskbridge ");
        let ghost av = string_views(self.args@);
        let ghost start = out@;
        proof {
            reveal_strlit("deskbridge ");
            assert(av.take(0) =~= Seq::<Seq<char>>::empty());
            assert(out@ =~= start + join_spaces(av.take(0)));
        }
        let mut k: usize = 0;
        while k < self.args.len()
            invariant
                k <= self.args@.len(),
                av == string_views(self.args@),
                start == seq!['d', 'e', 's', 'k', 'b', 'r', 'i', 'd', 'g', 'e', ' '],
                out@ == start + join_spaces(av.take(k as int)),
            decreases self.args@.len() - k,
        {
            proof {
                reveal_strlit(" ");
                assert(av.take(k + 1).drop_last() =~= av.take(k as int));
                assert(av.take(k + 1).last() == self.args@[k as int]@);
            }
            if k > 0 {
                out.append(" ");
            }
            out.append(self.args[k].as_str());
            proof {
                if k == 0 {
                    assert(out@ =~= start + join_spaces(av.take(1)));
                } else {
                    assert(out@ =~= start + join_spaces(av.take(k + 1)));
                }
            }
            k = k + 1;
        }
        assert(av.take(k as int) =~= av);
        out
    }
}

} // verus!
