use vstd::prelude::*;

use crate::config::{
    language_name, modifier_target_name, spec_parse_language, spec_parse_modifier_target, Language,
    ModifierTarget, Role,
};
use crate::launch::{decimal, u64_to_decimal};
use crate::lines::str_views;
use crate::screen_size::u32_max;
use crate::server::{edge_name, spec_parse_edge, Edge};
use crate::text::{spec_trim, str_eq, trim};
use crate::tokens::{find_either, first_of, lemma_first_of_bounds, parse_u64, spec_parse_unsigned, split_char, split_on};

verus! {

/// The scroll settings, whose values are decimal fractions.
#[derive(Debug, Clone, Copy, PartialEq, Eq, Structural)]
pub enum ScrollSetting {
    Scale,
    Response,
    MaxStep,
}

/// The settings of the configuration file, but for the scroll fractions:
/// those are listed, in the order the file sets them, with their text.
pub struct ConfigSettings {
    pub role: Role,
    pub language: Language,
    pub bind: String,
    pub server: String,
    pub edge: Edge,
    pub scroll_frame_ms: u64,
    pub mac_command_mapping: ModifierTarget,
    pub mac_control_mapping: ModifierTarget,
    pub mac_option_mapping: ModifierTarget,
    pub scroll: Vec<(ScrollSetting, String)>,
}

pub struct ConfigModel {
    pub role: Role,
    pub language: Language,
    pub bind: Seq<char>,
    pub server: Seq<char>,
    pub edge: Edge,
    pub scroll_frame_ms: u64,
    pub mac_command_mapping: ModifierTarget,
    pub mac_control_mapping: ModifierTarget,
    pub mac_option_mapping: ModifierTarget,
    pub scroll: Seq<(ScrollSetting, Seq<char>)>,
}

impl View for ConfigSettings {
    type V = ConfigModel;

    open spec fn view(&self) -> ConfigModel {
        ConfigModel {
            role: self.role,
            language: self.language,
            bind: self.bind@,
            server: self.server@,
            edge: self.edge,
            scroll_frame_ms: self.scroll_frame_ms,
            mac_command_mapping: self.mac_command_mapping,
            mac_control_mapping: self.mac_control_mapping,
            mac_option_mapping: self.mac_option_mapping,
            scroll: self.scroll@.map_values(|e: (ScrollSetting, String)| (e.0, e.1@)),
        }
    }
}

/// The settings used where the file says nothing.
pub open spec fn default_config() -> ConfigModel {
    ConfigModel {
        role: Role::Client,
        language: Language::English,
        bind: "0.0.0.0:24920"@,
        server: "192.168.1.10:24920"@,
        edge: Edge::Right,
        scroll_frame_ms: 8,
        mac_command_mapping: ModifierTarget::Control,
        mac_control_mapping: ModifierTarget::Control,
        mac_option_mapping: ModifierTarget::Alt,
        scroll: seq![],
    }
}

/// What one line `key=value` does to the settings; both sides are
/// trimmed, and a value that does not read leaves the setting as it was.
pub open spec fn apply_config_line(c: ConfigModel, line: Seq<char>) -> ConfigModel {
    match first_of(line, 0, '=', '=') {
        None => c,
        Some(k) => apply_setting(c, spec_trim(line.take(k)), spec_trim(line.skip(k + 1))),
    }
}

/// What one setting `key` with value `v` does to the settings.
pub open spec fn apply_setting(c: ConfigModel, key: Seq<char>, v: Seq<char>) -> ConfigModel {
            if key == "role"@ {
                ConfigModel { role: if v == "server"@ { Role::Server } else { Role::Client }, ..c }
            } else if key == "language"@ {
                ConfigModel {
                    language: match spec_parse_language(v) {
                        Some(l) => l,
                        None => c.language,
                    },
                    ..c
                }
            } else if key == "bind"@ {
                ConfigModel { bind: v, ..c }
            } else if key == "server"@ {
                ConfigModel { server: v, ..c }
            } else if key == "edge"@ {
                ConfigModel {
                    edge: match spec_parse_edge(v) {
                        Some(e) => e,
                        None => c.edge,
                    },
                    ..c
                }
            } else if key == "scroll_scale"@ {
                ConfigModel { scroll: c.scroll.push((ScrollSetting::Scale, v)), ..c }
            } else if key == "scroll_response"@ {
                ConfigModel { scroll: c.scroll.push((ScrollSetting::Response, v)), ..c }
            } else if key == "scroll_max_step"@ {
                ConfigModel { scroll: c.scroll.push((ScrollSetting::MaxStep, v)), ..c }
            } else if key == "scroll_frame_ms"@ {
                ConfigModel {
                    scroll_frame_ms: match spec_parse_unsigned(v, 10, 0xffff_ffff_ffff_ffff) {
                        Some(n) => n as u64,
                        None => c.scroll_frame_ms,
                    },
                    ..c
                }
            } else if key == "mac_command_mapping"@ {
                ConfigModel {
                    mac_command_mapping: match spec_parse_modifier_target(v) {
                        Some(t) => t,
                        None => c.mac_command_mapping,
                    },
                    ..c
                }
            } else if key == "mac_control_mapping"@ {
                ConfigModel {
                    mac_control_mapping: match spec_parse_modifier_target(v) {
                        Some(t) => t,
                        None => c.mac_control_mapping,
                    },
                    ..c
                }
            } else if key == "mac_option_mapping"@ {
                ConfigModel {
                    mac_option_mapping: match spec_parse_modifier_target(v) {
                        Some(t) => t,
                        None => c.mac_option_mapping,
                    },
                    ..c
                }
            } else {
                c
            }
}

pub open spec fn apply_config_lines(c: ConfigModel, lines: Seq<Seq<char>>) -> ConfigModel
    decreases lines.len(),
{
    if lines.len() == 0 {
        c
    } else {
        apply_config_lines(apply_config_line(c, lines[0]), lines.drop_first())
    }
}

/// The settings a configuration file gives, line by line from the
/// defaults.
pub open spec fn spec_parse_config(text: Seq<char>) -> ConfigModel {
    apply_config_lines(default_config(), split_on(text, '\n'))
}

impl ConfigSettings {
    pub fn defaults() -> (r: ConfigSettings)
        ensures
            r@ == default_config(),
    {
        let r = ConfigSettings {
            role: Role::Client,
            language: crate::config::default_language(),
            bind: String::from_str("0.0.0.0:24920"),
            server: String::from_str("192.168.1.10:24920"),
            edge: Edge::Right,
            scroll_frame_ms: 8,
            mac_command_mapping: ModifierTarget::Control,
            mac_control_mapping: ModifierTarget::Control,
            mac_option_mapping: ModifierTarget::Alt,
            scroll: Vec::new(),
        };
        assert(r@.scroll =~= Seq::<(ScrollSetting, Seq<char>)>::empty());
        r
    }

    fn push_scroll(&mut self, setting: ScrollSetting, value: &str)
        ensures
            final(self)@ == (ConfigModel { scroll: old(self)@.scroll.push((setting, value@)), ..old(self)@ }),
    {
        let ghost before = self.scroll@;
        self.scroll.push((setting, String::from_str(value)));
        assert(self@.scroll =~= old(self)@.scroll.push((setting, value@)));
    }

    /// Applies one line of the configuration file.
    pub fn apply_line(&mut self, line: &str)
        ensures
            final(self)@ == apply_config_line(old(self)@, line@),
    {
        proof {
            lemma_first_of_bounds(line@, 0, '=', '=');
        }
        let k = match find_either(line, '=', '=') {
            Some(k) => k,
            None => return,
        };
        let n = line.unicode_len();
        let key = trim(line.substring_char(0, k));
        let value = trim(line.substring_char(k + 1, n));
        assert(line@.subrange(0, k as int) =~= line@.take(k as int));
        assert(line@.subrange(k + 1, n as int) =~= line@.skip(k + 1));
        if str_eq(key, "role") {
            self.role = if str_eq(value, "server") {
                Role::Server
            } else {
                Role::Client
            };
        } else if str_eq(key, "language") {
            if let Some(l) = Language::parse(value) {
                self.language = l;
            }
        } else if str_eq(key, "bind") {
            self.bind = String::from_str(value);
        } else if str_eq(key, "server") {
            self.server = String::from_str(value);
        } else if str_eq(key, "edge") {
            if let Ok(e) = Edge::parse(value) {
                self.edge = e;
            }
        } else if str_eq(key, "scroll_scale") {
            self.push_scroll(ScrollSetting::Scale, value);
        } else if str_eq(key, "scroll_response") {
            self.push_scroll(ScrollSetting::Response, value);
        } else if str_eq(key, "scroll_max_step") {
            self.push_scroll(ScrollSetting::MaxStep, value);
        } else if str_eq(key, "scroll_frame_ms") {
            if let Some(ms) = parse_u64(value) {
                self.scroll_frame_ms = ms;
            }
        } else if str_eq(key, "mac_command_mapping") {
            if let Some(t) = ModifierTarget::parse(value) {
                self.mac_command_mapping = t;
            }
        } else if str_eq(key, "mac_control_mapping") {
            if let Some(t) = ModifierTarget::parse(value) {
                self.mac_control_mapping = t;
            }
        } else if str_eq(key, "mac_option_mapping") {
            if let Some(t) = ModifierTarget::parse(value) {
                self.mac_option_mapping = t;
            }
        }
    }

    /// The settings a configuration file's text gives.
    pub fn parse(text: &str) -> (r: ConfigSettings)
        ensures
            r@ == spec_parse_config(text@),
    {
        let lines = split_char(text, '\n');
        let mut c = ConfigSettings::defaults();
        let mut k: usize = 0;
        assert(str_views(lines@).skip(0) =~= str_views(lines@));
        while k < lines.len()
            invariant
                k <= lines@.len(),
                spec_parse_config(text@) == apply_config_lines(c@, str_views(lines@).skip(k as int)),
            decreases lines@.len() - k,
        {
            let ghost rest = str_views(lines@).skip(k as int);
            assert(rest[0] == lines@[k as int]@);
            assert(rest.drop_first() =~= str_views(lines@).skip(k + 1));
            c.apply_line(lines[k]);
            k = k + 1;
        }
        c
    }
}

/// How the configuration file names a role.
pub open spec fn role_name(r: Role) -> Seq<char> {
    match r {
        Role::Server => "server"@,
        Role::Client => "client"@,
    }
}

fn role_text(r: Role) -> (t: &'static str)
    ensures
        t@ == role_name(r),
{
    match r {
        Role::Server => "server",
        Role::Client => "client",
    }
}

/// One line of the configuration file: `key=value` and a line feed.
pub open spec fn setting_text(key: Seq<char>, v: Seq<char>) -> Seq<char> {
    key + seq!['='] + v + seq!['\n']
}

/// The text of the configuration file: one `key=value` line per setting,
/// in a fixed order, the scroll fractions as the caller wrote them.
pub open spec fn spec_render_config(
    c: ConfigModel,
    scale: Seq<char>,
    response: Seq<char>,
    max_step: Seq<char>,
) -> Seq<char> {
    setting_text("role"@, role_name(c.role)) + setting_text("language"@, language_name(c.language))
        + setting_text("bind"@, c.bind) + setting_text("server"@, c.server) + setting_text(
        "edge"@,
        edge_name(c.edge),
    ) + setting_text("scroll_scale"@, scale) + setting_text("scroll_response"@, response) + setting_text(
        "scroll_max_step"@,
        max_step,
    ) + setting_text("scroll_frame_ms"@, decimal(c.scroll_frame_ms as nat)) + setting_text(
        "mac_command_mapping"@,
        modifier_target_name(c.mac_command_mapping),
    ) + setting_text("mac_control_mapping"@, modifier_target_name(c.mac_control_mapping)) + setting_text(
        "mac_option_mapping"@,
        modifier_target_name(c.mac_option_mapping),
    )
}

fn push_setting(out: &mut String, key: &str, value: &str)
    ensures
        final(out)@ == old(out)@ + setting_text(key@, value@),
{
    out.append(key);
    out.append("=");
    out.append(value);
    out.append("\n");
    proof {
        reveal_strlit("=");
        reveal_strlit("\n");
        assert(out@ =~= old(out)@ + setting_text(key@, value@));
    }
}

impl ConfigSettings {
    /// The text of the configuration file for these settings, with the
    /// scroll scale and response (three decimals) and maximum step (one
    /// decimal) as written by the caller.
    pub fn render(&self, scale: &str, response: &str, max_step: &str) -> (r: String)
        ensures
            r@ == spec_render_config(self@, scale@, response@, max_step@),
    {
        let mut out = String::new();
        push_setting(&mut out, "role", role_text(self.role));
        assert(out@ =~= setting_text("role"@, role_name(self.role)));
        push_setting(&mut out, "language", self.language.as_str());
        push_setting(&mut out, "bind", self.bind.as_str());
        push_setting(&mut out, "server", self.server.as_str());
        push_setting(&mut out, "edge", self.edge.as_str());
        push_setting(&mut out, "scroll_scale", scale);
        push_setting(&mut out, "scroll_response", response);
        push_setting(&mut out, "scroll_max_step", max_step);
        let ms = u64_to_decimal(self.scroll_frame_ms);
        push_setting(&mut out, "scroll_frame_ms", ms.as_str());
        push_setting(&mut out, "mac_command_mapping", self.mac_command_mapping.as_str());
        push_setting(&mut out, "mac_control_mapping", self.mac_control_mapping.as_str());
        push_setting(&mut out, "mac_option_mapping", self.mac_option_mapping.as_str());
        out
    }
}

/// Where the configuration file lives: in the folder that
/// `DESKBRIDGE_CONFIG_DIR` names when it is set, next to the program
/// otherwise, under the name `config.ini`.
pub open spec fn spec_config_path(config_dir: Option<Seq<char>>, program_dir: Seq<char>) -> Seq<char> {
    match config_dir {
        Some(d) => d + "/config.ini"@,
        None => program_dir + "/config.ini"@,
    }
}

/// The path of the configuration file, given the value of
/// `DESKBRIDGE_CONFIG_DIR` (if set) and the folder of the program.
pub fn config_path(config_dir: Option<&str>, program_dir: &str) -> (r: String)
    ensures
        r@ == spec_config_path(crate::keyboard::opt_view(config_dir), program_dir@),
{
    let mut out = match config_dir {
        Some(d) => String::from_str(d),
        None => String::from_str(program_dir),
    };
    out.append("/config.ini");
    out
}

} // verus!
