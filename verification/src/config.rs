use vstd::prelude::*;

use crate::text::str_eq;

verus! {

#[derive(Debug, Clone, Copy, PartialEq, Eq, Structural)]
pub enum Role {
    Server,
    Client,
}

#[derive(Debug, Clone, Copy, PartialEq, Eq, Structural)]
pub enum Language {
    Chinese,
    English,
}

/// The key a macOS modifier is sent as.
#[derive(Debug, Clone, Copy, PartialEq, Eq, Structural)]
pub enum ModifierTarget {
    Control,
    Meta,
    Alt,
    Disabled,
}

pub open spec fn spec_parse_language(v: Seq<char>) -> Option<Language> {
    if v == "zh"@ || v == "chinese"@ {
        Some(Language::Chinese)
    } else if v == "en"@ || v == "english"@ {
        Some(Language::English)
    } else {
        None
    }
}

pub open spec fn language_name(l: Language) -> Seq<char> {
    match l {
        Language::Chinese => "zh"@,
        Language::English => "en"@,
    }
}

pub open spec fn spec_parse_modifier_target(v: Seq<char>) -> Option<ModifierTarget> {
    if v == "control"@ || v == "ctrl"@ {
        Some(ModifierTarget::Control)
    } else if v == "meta"@ || v == "win"@ || v == "windows"@ || v == "command"@ {
        Some(ModifierTarget::Meta)
    } else if v == "alt"@ || v == "option"@ {
        Some(ModifierTarget::Alt)
    } else if v == "disabled"@ || v == "none"@ || v == "off"@ {
        Some(ModifierTarget::Disabled)
    } else {
        None
    }
}

pub open spec fn modifier_target_name(t: ModifierTarget) -> Seq<char> {
    match t {
        ModifierTarget::Control => "control"@,
        ModifierTarget::Meta => "meta"@,
        ModifierTarget::Alt => "alt"@,
        ModifierTarget::Disabled => "disabled"@,
    }
}

impl Language {
    /// Parses a language name ("zh"/"chinese" or "en"/"english").
    pub fn parse(value: &str) -> (r: Option<Language>)
        ensures
            r == spec_parse_language(value@),
    {
        if str_eq(value, "zh") || str_eq(value, "chinese") {
            Some(Language::Chinese)
        } else if str_eq(value, "en") || str_eq(value, "english") {
            Some(Language::English)
        } else {
            None
        }
    }

    pub fn as_str(self) -> (r: &'static str)
        ensures
            r@ == language_name(self),
    {
        match self {
            Language::Chinese => "zh",
            Language::English => "en",
        }
    }
}

impl ModifierTarget {
    /// Parses a modifier target name and its aliases.
    pub fn parse(value: &str) -> (r: Option<ModifierTarget>)
        ensures
            r == spec_parse_modifier_target(value@),
    {
        if str_eq(value, "control") || str_eq(value, "ctrl") {
            Some(ModifierTarget::Control)
        } else if str_eq(value, "meta") || str_eq(value, "win") || str_eq(value, "windows")
            || str_eq(value, "command") {
            Some(ModifierTarget::Meta)
        } else if str_eq(value, "alt") || str_eq(value, "option") {
            Some(ModifierTarget::Alt)
        } else if str_eq(value, "disabled") || str_eq(value, "none") || str_eq(value, "off") {
            Some(ModifierTarget::Disabled)
        } else {
            None
        }
    }

    pub fn as_str(self) -> (r: &'static str)
        ensures
            r@ == modifier_target_name(self),
    {
        match self {
            ModifierTarget::Control => "control",
            ModifierTarget::Meta => "meta",
            ModifierTarget::Alt => "alt",
            ModifierTarget::Disabled => "disabled",
        }
    }
}

/// The language used when the configuration names none.
pub fn default_language() -> (r: Language)
    ensures
        r == Language::English,
{
    Language::English
}

/// The name a language is written under parses back to that language.
pub proof fn law_language_name_roundtrip(l: Language)
    ensures
        spec_parse_language(language_name(l)) == Some(l),
{
    reveal_strlit("zh");
    reveal_strlit("chinese");
    reveal_strlit("en");
    reveal_strlit("english");
    assert("en"@[0] != "zh"@[0]);
    assert("en"@.len() != "chinese"@.len());
}

/// The name a modifier target is written under parses back to that target.
pub proof fn law_modifier_target_name_roundtrip(t: ModifierTarget)
    ensures
        spec_parse_modifier_target(modifier_target_name(t)) == Some(t),
{
    reveal_strlit("control");
    reveal_strlit("ctrl");
    reveal_strlit("meta");
    reveal_strlit("win");
    reveal_strlit("windows");
    reveal_strlit("command");
    reveal_strlit("alt");
    reveal_strlit("option");
    reveal_strlit("disabled");
    reveal_strlit("none");
    reveal_strlit("off");
    assert("meta"@[0] != "control"@[0] && "meta"@[0] != "ctrl"@[0]);
    assert("alt"@[0] != "control"@[0] && "alt"@[0] != "ctrl"@[0] && "alt"@[0] != "meta"@[0]
        && "alt"@[0] != "win"@[0] && "alt"@[0] != "windows"@[0] && "alt"@[0] != "command"@[0]);
    assert("disabled"@[0] != "control"@[0] && "disabled"@[0] != "ctrl"@[0] && "disabled"@[0]
        != "meta"@[0] && "disabled"@[0] != "win"@[0] && "disabled"@[0] != "windows"@[0]
        && "disabled"@[0] != "command"@[0] && "disabled"@[0] != "alt"@[0] && "disabled"@[0]
        != "option"@[0]);
}

} // verus!
