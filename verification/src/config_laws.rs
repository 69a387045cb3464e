use vstd::prelude::*;

use crate::config::{
    language_name, law_language_name_roundtrip, law_modifier_target_name_roundtrip, modifier_target_name,
    ModifierTarget, Role,
};
use crate::config_file::{
    apply_config_line, apply_config_lines, apply_setting, default_config, role_name, setting_text, spec_parse_config,
    spec_render_config, ConfigModel, ScrollSetting,
};
use crate::launch::{decimal, digit_char};
use crate::server::{edge_name, law_edge_name_roundtrip};
use crate::text::{spec_is_whitespace, spec_trim, spec_trim_end, spec_trim_start};
use crate::tokens::{
    all_digits, digit_value, digits_value, first_of, lemma_first_of_bounds, spec_parse_unsigned, split_on,
    unsigned_digits,
};

verus! {

/// A value that reads back as written: no white space at either end and no
/// line feed in it.
pub open spec fn plain_value(v: Seq<char>) -> bool {
    spec_trim(v) == v && !v.contains('\n')
}

/// Text without white space, `=` or line feeds.
pub open spec fn bare_word(w: Seq<char>) -> bool {
    w.len() > 0 && forall|i: int| 0 <= i < w.len() ==> !spec_is_whitespace(#[trigger] w[i]) && w[i] != '='
}

proof fn lemma_bare_plain(w: Seq<char>)
    requires
        w.len() > 0,
        forall|i: int| 0 <= i < w.len() ==> !spec_is_whitespace(#[trigger] w[i]),
    ensures
        plain_value(w),
{
    assert(spec_trim_start(w) == w);
    assert(spec_trim_end(w) == w);
    assert(!w.contains('\n')) by {
        if w.contains('\n') {
            let i = choose|i: int| 0 <= i < w.len() && w[i] == '\n';
            assert(spec_is_whitespace(w[i]));
        }
    }
}

/// A line `key=value`.
pub open spec fn setting_line(key: Seq<char>, v: Seq<char>) -> Seq<char> {
    key + seq!['='] + v
}

proof fn lemma_setting_line(c: ConfigModel, key: Seq<char>, v: Seq<char>)
    requires
        bare_word(key),
        plain_value(v),
    ensures
        apply_config_line(c, setting_line(key, v)) == apply_setting(c, key, v),
        !setting_line(key, v).contains('\n'),
{
    let line = setting_line(key, v);
    let k = key.len() as int;
    lemma_first_of_bounds(line, 0, '=', '=');
    assert(line[k] == '=');
    assert forall|j: int| 0 <= j < k implies line[j] != '=' by {
        assert(line[j] == key[j]);
    }
    assert(first_of(line, 0, '=', '=') == Some(k)) by {
        match first_of(line, 0, '=', '=') {
            Some(m) => {
                if m < k {
                    assert(line[m] == key[m]);
                }
                if m > k {
                    assert(line[k] != '=');
                }
            },
            None => {
                assert(line[k] != '=');
            },
        }
    }
    assert(line.take(k) =~= key);
    assert(line.skip(k + 1) =~= v);
    lemma_bare_plain_word(key);
    assert(!line.contains('\n')) by {
        if line.contains('\n') {
            let i = choose|i: int| 0 <= i < line.len() && line[i] == '\n';
            if i < k {
                assert(line[i] == key[i]);
                assert(spec_is_whitespace(key[i]));
            } else if i > k {
                assert(line[i] == v[i - k - 1]);
                assert(v.contains('\n'));
            }
        }
    }
}

proof fn lemma_bare_plain_word(w: Seq<char>)
    requires
        bare_word(w),
    ensures
        spec_trim(w) == w,
{
    lemma_bare_plain(w);
}

proof fn lemma_split_piece(s: Seq<char>, w: Seq<char>, sep: char)
    requires
        !w.contains(sep),
    ensures
        split_on(s + w, sep).len() == split_on(s, sep).len(),
        split_on(s + w, sep) == split_on(s, sep).update(
            split_on(s, sep).len() - 1,
            split_on(s, sep).last() + w,
        ),
    decreases w.len(),
{
    crate::tokens::lemma_split_on_nonempty(s, sep);
    if w.len() == 0 {
        assert(s + w =~= s);
        assert(split_on(s, sep).last() + w =~= split_on(s, sep).last());
        assert(split_on(s, sep).update(split_on(s, sep).len() - 1, split_on(s, sep).last() + w) =~= split_on(
            s,
            sep,
        ));
    } else {
        let w0 = w.drop_last();
        assert(!w0.contains(sep)) by {
            if w0.contains(sep) {
                let i = choose|i: int| 0 <= i < w0.len() && w0[i] == sep;
                assert(w[i] == sep);
            }
        }
        lemma_split_piece(s, w0, sep);
        assert((s + w).drop_last() =~= s + w0);
        assert((s + w).last() == w.last());
        assert(w.last() != sep) by {
            assert(w[w.len() - 1] == w.last());
        }
        let prev = split_on(s + w0, sep);
        assert(prev.last().push(w.last()) =~= split_on(s, sep).last() + w);
        assert(split_on(s + w, sep) =~= split_on(s, sep).update(
            split_on(s, sep).len() - 1,
            split_on(s, sep).last() + w,
        ));
    }
}

proof fn lemma_decimal_reads_back(n: nat)
    ensures
        decimal(n).len() > 0,
        all_digits(decimal(n), 10),
        digits_value(decimal(n), 10) == n,
        forall|i: int| 0 <= i < decimal(n).len() ==> '0' <= #[trigger] decimal(n)[i] <= '9',
    decreases n,
{
    if n >= 10 {
        lemma_decimal_reads_back(n / 10);
        let d = decimal(n);
        let p = decimal(n / 10);
        let last: nat = n % 10;
        assert(d == p + seq![digit_char(last)]);
        assert(d.drop_last() =~= p);
        assert(d.last() == digit_char(last));
        assert(last < 10);
        assert(digit_value(digit_char(last), 10) == Some(last));
        assert(digits_value(d, 10) == digits_value(p, 10) * 10 + last);
        assert((n / 10) * 10 + n % 10 == n) by (nonlinear_arith);
        assert forall|i: int| 0 <= i < d.len() implies '0' <= #[trigger] d[i] <= '9' by {
            if i < p.len() {
                assert(d[i] == p[i]);
            }
        }
        assert forall|i: int| 0 <= i < d.len() implies #[trigger] digit_value(d[i], 10) is Some by {
            assert('0' <= d[i] <= '9');
        }
    } else {
        let d = decimal(n);
        assert(d.last() == digit_char(n));
        assert(digit_value(digit_char(n), 10) == Some(n));
        assert(d.drop_last() =~= Seq::<char>::empty());
        assert(digits_value(d.drop_last(), 10) == 0);
        assert(digits_value(d, 10) == n);
    }
}

proof fn lemma_decimal_parse(n: u64)
    ensures
        spec_parse_unsigned(decimal(n as nat), 10, 0xffff_ffff_ffff_ffff) == Some(n as nat),
        plain_value(decimal(n as nat)),
{
    lemma_decimal_reads_back(n as nat);
    let d = decimal(n as nat);
    assert('0' <= d[0] <= '9');
    assert(unsigned_digits(d) == Some(d));
    assert forall|i: int| 0 <= i < d.len() implies !spec_is_whitespace(#[trigger] d[i]) by {
        assert('0' <= d[i] <= '9');
    }
    lemma_bare_plain(d);
}

/// Words of lower-case letters and `_`.
pub open spec fn word_chars(w: Seq<char>) -> bool
    decreases w.len(),
{
    if w.len() == 0 {
        true
    } else {
        (('a' <= w[0] <= 'z') || w[0] == '_') && word_chars(w.drop_first())
    }
}

proof fn lemma_word_chars(w: Seq<char>)
    requires
        word_chars(w),
    ensures
        forall|i: int| 0 <= i < w.len() ==> ('a' <= #[trigger] w[i] <= 'z') || w[i] == '_',
    decreases w.len(),
{
    if w.len() > 0 {
        lemma_word_chars(w.drop_first());
        assert forall|i: int| 0 <= i < w.len() implies ('a' <= #[trigger] w[i] <= 'z') || w[i] == '_' by {
            if i > 0 {
                assert(w[i] == w.drop_first()[i - 1]);
            }
        }
    }
}

proof fn lemma_word_bare(w: Seq<char>)
    requires
        w.len() > 0,
        word_chars(w),
    ensures
        bare_word(w),
        plain_value(w),
{
    lemma_word_chars(w);
    assert forall|i: int| 0 <= i < w.len() implies !spec_is_whitespace(#[trigger] w[i]) && w[i] != '=' by {
        assert(('a' <= w[i] <= 'z') || w[i] == '_');
    }
    lemma_bare_plain(w);
}

proof fn lemma_lines_push(c: ConfigModel, ls: Seq<Seq<char>>, l: Seq<char>)
    ensures
        apply_config_lines(c, ls.push(l)) == apply_config_line(apply_config_lines(c, ls), l),
    decreases ls.len(),
{
    if ls.len() == 0 {
        assert(ls.push(l).drop_first() =~= Seq::<Seq<char>>::empty());
        assert(ls.push(l)[0] == l);
        assert(apply_config_lines(apply_config_line(c, l), Seq::<Seq<char>>::empty()) == apply_config_line(c, l));
        assert(apply_config_lines(c, ls) == c);
    } else {
        let c1 = apply_config_line(c, ls[0]);
        lemma_lines_push(c1, ls.drop_first(), l);
        assert(ls.push(l).drop_first() =~= ls.drop_first().push(l));
        assert(ls.push(l)[0] == ls[0]);
        assert(apply_config_lines(c, ls) == apply_config_lines(c1, ls.drop_first()));
        assert(apply_config_lines(c, ls.push(l)) == apply_config_lines(c1, ls.push(l).drop_first()));
    }
}

proof fn lemma_config_step(c0: ConfigModel, t: Seq<char>, ls: Seq<Seq<char>>, key: Seq<char>, v: Seq<char>)
    requires
        split_on(t, '\n') == ls.push(Seq::<char>::empty()),
        bare_word(key),
        plain_value(v),
    ensures
        split_on(t + setting_text(key, v), '\n') == ls.push(setting_line(key, v)).push(Seq::<char>::empty()),
        apply_config_lines(c0, ls.push(setting_line(key, v))) == apply_setting(apply_config_lines(c0, ls), key, v),
{
    let line = setting_line(key, v);
    lemma_setting_line(apply_config_lines(c0, ls), key, v);
    lemma_lines_push(c0, ls, line);
    lemma_split_piece(t, line, '\n');
    assert(split_on(t, '\n').last() =~= Seq::<char>::empty());
    assert(Seq::<char>::empty() + line =~= line);
    assert(split_on(t + line, '\n') =~= ls.push(line));
    let u = t + setting_text(key, v);
    assert(u =~= (t + line).push('\n'));
    assert(u.drop_last() =~= t + line);
    assert(u.last() == '\n');
}

proof fn lemma_config_end(c0: ConfigModel, ls: Seq<Seq<char>>)
    ensures
        apply_config_lines(c0, ls.push(Seq::<char>::empty())) == apply_config_lines(c0, ls),
{
    lemma_lines_push(c0, ls, Seq::<char>::empty());
}

proof fn lemma_keys_bare()
    ensures
        bare_word("role"@),
        bare_word("language"@),
        bare_word("bind"@),
        bare_word("server"@),
        bare_word("edge"@),
        bare_word("scroll_scale"@),
        bare_word("scroll_response"@),
        bare_word("scroll_max_step"@),
        bare_word("scroll_frame_ms"@),
        bare_word("mac_command_mapping"@),
        bare_word("mac_control_mapping"@),
        bare_word("mac_option_mapping"@),
{
    reveal_with_fuel(word_chars, 20);
    reveal_strlit("role");
    lemma_word_bare("role"@);
    reveal_strlit("language");
    lemma_word_bare("language"@);
    reveal_strlit("bind");
    lemma_word_bare("bind"@);
    reveal_strlit("server");
    lemma_word_bare("server"@);
    reveal_strlit("edge");
    lemma_word_bare("edge"@);
    reveal_strlit("scroll_scale");
    lemma_word_bare("scroll_scale"@);
    reveal_strlit("scroll_response");
    lemma_word_bare("scroll_response"@);
    reveal_strlit("scroll_max_step");
    lemma_word_bare("scroll_max_step"@);
    reveal_strlit("scroll_frame_ms");
    lemma_word_bare("scroll_frame_ms"@);
    reveal_strlit("mac_command_mapping");
    lemma_word_bare("mac_command_mapping"@);
    reveal_strlit("mac_control_mapping");
    lemma_word_bare("mac_control_mapping"@);
    reveal_strlit("mac_option_mapping");
    lemma_word_bare("mac_option_mapping"@);
}

proof fn lemma_names_plain(c: ConfigModel)
    ensures
        plain_value(role_name(c.role)),
        plain_value(language_name(c.language)),
        plain_value(edge_name(c.edge)),
        plain_value(modifier_target_name(c.mac_command_mapping)),
        plain_value(modifier_target_name(c.mac_control_mapping)),
        plain_value(modifier_target_name(c.mac_option_mapping)),
{
    reveal_with_fuel(word_chars, 10);
    reveal_strlit("server");
    reveal_strlit("client");
    reveal_strlit("zh");
    reveal_strlit("en");
    reveal_strlit("left");
    reveal_strlit("right");
    lemma_word_bare(role_name(c.role));
    lemma_word_bare(language_name(c.language));
    lemma_word_bare(edge_name(c.edge));
    lemma_modifier_plain(c.mac_command_mapping);
    lemma_modifier_plain(c.mac_control_mapping);
    lemma_modifier_plain(c.mac_option_mapping);
}

proof fn lemma_modifier_plain(t: ModifierTarget)
    ensures
        plain_value(modifier_target_name(t)),
{
    reveal_with_fuel(word_chars, 10);
    reveal_strlit("control");
    reveal_strlit("meta");
    reveal_strlit("alt");
    reveal_strlit("disabled");
    lemma_word_bare(modifier_target_name(t));
}

proof fn lemma_keys_distinct()
    ensures
        "language"@ != "role"@,
        "bind"@ != "role"@,
        "bind"@ != "language"@,
        "server"@ != "role"@,
        "server"@ != "language"@,
        "server"@ != "bind"@,
        "edge"@ != "role"@,
        "edge"@ != "language"@,
        "edge"@ != "bind"@,
        "edge"@ != "server"@,
        "scroll_scale"@ != "role"@,
        "scroll_scale"@ != "language"@,
        "scroll_scale"@ != "bind"@,
        "scroll_scale"@ != "server"@,
        "scroll_scale"@ != "edge"@,
        "scroll_response"@ != "role"@,
        "scroll_response"@ != "language"@,
        "scroll_response"@ != "bind"@,
        "scroll_response"@ != "server"@,
        "scroll_response"@ != "edge"@,
        "scroll_response"@ != "scroll_scale"@,
        "scroll_max_step"@ != "role"@,
        "scroll_max_step"@ != "language"@,
        "scroll_max_step"@ != "bind"@,
        "scroll_max_step"@ != "server"@,
        "scroll_max_step"@ != "edge"@,
        "scroll_max_step"@ != "scroll_scale"@,
        "scroll_max_step"@ != "scroll_response"@,
        "scroll_frame_ms"@ != "role"@,
        "scroll_frame_ms"@ != "language"@,
        "scroll_frame_ms"@ != "bind"@,
        "scroll_frame_ms"@ != "server"@,
        "scroll_frame_ms"@ != "edge"@,
        "scroll_frame_ms"@ != "scroll_scale"@,
        "scroll_frame_ms"@ != "scroll_response"@,
        "scroll_frame_ms"@ != "scroll_max_step"@,
        "mac_command_mapping"@ != "role"@,
        "mac_command_mapping"@ != "language"@,
        "mac_command_mapping"@ != "bind"@,
        "mac_command_mapping"@ != "server"@,
        "mac_command_mapping"@ != "edge"@,
        "mac_command_mapping"@ != "scroll_scale"@,
        "mac_command_mapping"@ != "scroll_response"@,
        "mac_command_mapping"@ != "scroll_max_step"@,
        "mac_command_mapping"@ != "scroll_frame_ms"@,
        "mac_control_mapping"@ != "role"@,
        "mac_control_mapping"@ != "language"@,
        "mac_control_mapping"@ != "bind"@,
        "mac_control_mapping"@ != "server"@,
        "mac_control_mapping"@ != "edge"@,
        "mac_control_mapping"@ != "scroll_scale"@,
        "mac_control_mapping"@ != "scroll_response"@,
        "mac_control_mapping"@ != "scroll_max_step"@,
        "mac_control_mapping"@ != "scroll_frame_ms"@,
        "mac_control_mapping"@ != "mac_command_mapping"@,
        "mac_option_mapping"@ != "role"@,
        "mac_option_mapping"@ != "language"@,
        "mac_option_mapping"@ != "bind"@,
        "mac_option_mapping"@ != "server"@,
        "mac_option_mapping"@ != "edge"@,
        "mac_option_mapping"@ != "scroll_scale"@,
        "mac_option_mapping"@ != "scroll_response"@,
        "mac_option_mapping"@ != "scroll_max_step"@,
        "mac_option_mapping"@ != "scroll_frame_ms"@,
        "mac_option_mapping"@ != "mac_command_mapping"@,
        "mac_option_mapping"@ != "mac_control_mapping"@,
{
    reveal_strlit("role");
    reveal_strlit("language");
    reveal_strlit("bind");
    reveal_strlit("server");
    reveal_strlit("edge");
    reveal_strlit("scroll_scale");
    reveal_strlit("scroll_response");
    reveal_strlit("scroll_max_step");
    reveal_strlit("scroll_frame_ms");
    reveal_strlit("mac_command_mapping");
    reveal_strlit("mac_control_mapping");
    reveal_strlit("mac_option_mapping");
    assert("language"@.len() != "role"@.len());
    assert("bind"@ != "role"@) by {
        assert("bind"@[0] != "role"@[0]);
    }
    assert("edge"@ != "role"@) by {
        assert("edge"@[0] != "role"@[0]);
    }
    assert("edge"@ != "bind"@) by {
        assert("edge"@[0] != "bind"@[0]);
    }
    assert("bind"@.len() != "language"@.len());
    assert("server"@.len() != "role"@.len());
    assert("server"@.len() != "language"@.len());
    assert("server"@.len() != "bind"@.len());
    assert("edge"@.len() != "language"@.len());
    assert("edge"@.len() != "server"@.len());
    assert("scroll_scale"@.len() != "role"@.len());
    assert("scroll_scale"@.len() != "language"@.len());
    assert("scroll_scale"@.len() != "bind"@.len());
    assert("scroll_scale"@.len() != "server"@.len());
    assert("scroll_scale"@.len() != "edge"@.len());
    assert("scroll_response"@.len() != "role"@.len());
    assert("scroll_response"@.len() != "language"@.len());
    assert("scroll_response"@.len() != "bind"@.len());
    assert("scroll_response"@.len() != "server"@.len());
    assert("scroll_response"@.len() != "edge"@.len());
    assert("scroll_response"@.len() != "scroll_scale"@.len());
    assert("scroll_max_step"@.len() != "role"@.len());
    assert("scroll_max_step"@.len() != "language"@.len());
    assert("scroll_max_step"@.len() != "bind"@.len());
    assert("scroll_max_step"@.len() != "server"@.len());
    assert("scroll_max_step"@.len() != "edge"@.len());
    assert("scroll_max_step"@.len() != "scroll_scale"@.len());
    assert("scroll_max_step"@ != "scroll_response"@) by {
        assert("scroll_max_step"@[7] != "scroll_response"@[7]);
    }
    assert("scroll_frame_ms"@.len() != "role"@.len());
    assert("scroll_frame_ms"@.len() != "language"@.len());
    assert("scroll_frame_ms"@.len() != "bind"@.len());
    assert("scroll_frame_ms"@.len() != "server"@.len());
    assert("scroll_frame_ms"@.len() != "edge"@.len());
    assert("scroll_frame_ms"@.len() != "scroll_scale"@.len());
    assert("scroll_frame_ms"@ != "scroll_response"@) by {
        assert("scroll_frame_ms"@[7] != "scroll_response"@[7]);
    }
    assert("scroll_frame_ms"@ != "scroll_max_step"@) by {
        assert("scroll_frame_ms"@[7] != "scroll_max_step"@[7]);
    }
    assert("mac_command_mapping"@.len() != "role"@.len());
    assert("mac_command_mapping"@.len() != "language"@.len());
    assert("mac_command_mapping"@.len() != "bind"@.len());
    assert("mac_command_mapping"@.len() != "server"@.len());
    assert("mac_command_mapping"@.len() != "edge"@.len());
    assert("mac_command_mapping"@.len() != "scroll_scale"@.len());
    assert("mac_command_mapping"@.len() != "scroll_response"@.len());
    assert("mac_command_mapping"@.len() != "scroll_max_step"@.len());
    assert("mac_command_mapping"@.len() != "scroll_frame_ms"@.len());
    assert("mac_control_mapping"@.len() != "role"@.len());
    assert("mac_control_mapping"@.len() != "language"@.len());
    assert("mac_control_mapping"@.len() != "bind"@.len());
    assert("mac_control_mapping"@.len() != "server"@.len());
    assert("mac_control_mapping"@.len() != "edge"@.len());
    assert("mac_control_mapping"@.len() != "scroll_scale"@.len());
    assert("mac_control_mapping"@.len() != "scroll_response"@.len());
    assert("mac_control_mapping"@.len() != "scroll_max_step"@.len());
    assert("mac_control_mapping"@.len() != "scroll_frame_ms"@.len());
    assert("mac_control_mapping"@ != "mac_command_mapping"@) by {
        assert("mac_control_mapping"@[6] != "mac_command_mapping"@[6]);
    }
    assert("mac_option_mapping"@.len() != "role"@.len());
    assert("mac_option_mapping"@.len() != "language"@.len());
    assert("mac_option_mapping"@.len() != "bind"@.len());
    assert("mac_option_mapping"@.len() != "server"@.len());
    assert("mac_option_mapping"@.len() != "edge"@.len());
    assert("mac_option_mapping"@.len() != "scroll_scale"@.len());
    assert("mac_option_mapping"@.len() != "scroll_response"@.len());
    assert("mac_option_mapping"@.len() != "scroll_max_step"@.len());
    assert("mac_option_mapping"@.len() != "scroll_frame_ms"@.len());
    assert("mac_option_mapping"@.len() != "mac_command_mapping"@.len());
    assert("mac_option_mapping"@.len() != "mac_control_mapping"@.len());
}

proof fn lemma_apply_named(c: ConfigModel, x: ConfigModel)
    ensures
        apply_setting(c, "role"@, role_name(x.role)) == (ConfigModel { role: x.role, ..c }),
        apply_setting(c, "language"@, language_name(x.language)) == (ConfigModel { language: x.language, ..c }),
        apply_setting(c, "bind"@, x.bind) == (ConfigModel { bind: x.bind, ..c }),
        apply_setting(c, "server"@, x.server) == (ConfigModel { server: x.server, ..c }),
        apply_setting(c, "edge"@, edge_name(x.edge)) == (ConfigModel { edge: x.edge, ..c }),
{
    reveal_strlit("role");
    reveal_strlit("language");
    reveal_strlit("bind");
    reveal_strlit("server");
    reveal_strlit("edge");
    reveal_strlit("client");
    assert("client"@[0] != "server"@[0]);
    lemma_keys_distinct();
    law_language_name_roundtrip(x.language);
    law_edge_name_roundtrip(x.edge);
}

proof fn lemma_apply_scroll(c: ConfigModel, v: Seq<char>)
    ensures
        apply_setting(c, "scroll_scale"@, v) == (ConfigModel {
            scroll: c.scroll.push((ScrollSetting::Scale, v)),
            ..c
        }),
        apply_setting(c, "scroll_response"@, v) == (ConfigModel {
            scroll: c.scroll.push((ScrollSetting::Response, v)),
            ..c
        }),
        apply_setting(c, "scroll_max_step"@, v) == (ConfigModel {
            scroll: c.scroll.push((ScrollSetting::MaxStep, v)),
            ..c
        }),
{
    reveal_strlit("role");
    reveal_strlit("language");
    reveal_strlit("bind");
    reveal_strlit("server");
    reveal_strlit("edge");
    reveal_strlit("scroll_scale");
    reveal_strlit("scroll_response");
    reveal_strlit("scroll_max_step");
    lemma_keys_distinct();
}

proof fn lemma_apply_numbers(c: ConfigModel, x: ConfigModel)
    ensures
        apply_setting(c, "scroll_frame_ms"@, decimal(x.scroll_frame_ms as nat)) == (ConfigModel {
            scroll_frame_ms: x.scroll_frame_ms,
            ..c
        }),
        apply_setting(c, "mac_command_mapping"@, modifier_target_name(x.mac_command_mapping)) == (ConfigModel {
            mac_command_mapping: x.mac_command_mapping,
            ..c
        }),
        apply_setting(c, "mac_control_mapping"@, modifier_target_name(x.mac_control_mapping)) == (ConfigModel {
            mac_control_mapping: x.mac_control_mapping,
            ..c
        }),
        apply_setting(c, "mac_option_mapping"@, modifier_target_name(x.mac_option_mapping)) == (ConfigModel {
            mac_option_mapping: x.mac_option_mapping,
            ..c
        }),
{
    reveal_strlit("role");
    reveal_strlit("language");
    reveal_strlit("bind");
    reveal_strlit("server");
    reveal_strlit("edge");
    reveal_strlit("scroll_scale");
    reveal_strlit("scroll_response");
    reveal_strlit("scroll_max_step");
    reveal_strlit("scroll_frame_ms");
    reveal_strlit("mac_command_mapping");
    reveal_strlit("mac_control_mapping");
    reveal_strlit("mac_option_mapping");
    lemma_keys_distinct();
    lemma_decimal_parse(x.scroll_frame_ms);
    law_modifier_target_name_roundtrip(x.mac_command_mapping);
    law_modifier_target_name_roundtrip(x.mac_control_mapping);
    law_modifier_target_name_roundtrip(x.mac_option_mapping);
}

/// Writing the settings to a configuration file and reading the file back
/// gives the same settings, the scroll fractions listed in the order the
/// file holds them, provided each written value reads back as written.
pub proof fn law_config_roundtrip(c: ConfigModel, scale: Seq<char>, response: Seq<char>, max_step: Seq<char>)
    requires
        plain_value(c.bind),
        plain_value(c.server),
        plain_value(scale),
        plain_value(response),
        plain_value(max_step),
    ensures
        spec_parse_config(spec_render_config(c, scale, response, max_step)) == (ConfigModel {
            scroll: seq![
                (ScrollSetting::Scale, scale),
                (ScrollSetting::Response, response),
                (ScrollSetting::MaxStep, max_step),
            ],
            ..c
        }),
{
    let d = default_config();
    lemma_keys_bare();
    lemma_names_plain(c);
    lemma_decimal_parse(c.scroll_frame_ms);
    let t0 = Seq::<char>::empty();
    let l0 = Seq::<Seq<char>>::empty();
    assert(split_on(t0, '\n') =~= l0.push(Seq::<char>::empty()));
    let c0 = d;
    lemma_config_step(d, t0, l0, "role"@, role_name(c.role));
    let t1 = t0 + setting_text("role"@, role_name(c.role));
    let l1 = l0.push(setting_line("role"@, role_name(c.role)));
    let c1 = apply_setting(c0, "role"@, role_name(c.role));
    lemma_config_step(d, t1, l1, "language"@, language_name(c.language));
    let t2 = t1 + setting_text("language"@, language_name(c.language));
    let l2 = l1.push(setting_line("language"@, language_name(c.language)));
    let c2 = apply_setting(c1, "language"@, language_name(c.language));
    lemma_config_step(d, t2, l2, "bind"@, c.bind);
    let t3 = t2 + setting_text("bind"@, c.bind);
    let l3 = l2.push(setting_line("bind"@, c.bind));
    let c3 = apply_setting(c2, "bind"@, c.bind);
    lemma_config_step(d, t3, l3, "server"@, c.server);
    let t4 = t3 + setting_text("server"@, c.server);
    let l4 = l3.push(setting_line("server"@, c.server));
    let c4 = apply_setting(c3, "server"@, c.server);
    lemma_config_step(d, t4, l4, "edge"@, edge_name(c.edge));
    let t5 = t4 + setting_text("edge"@, edge_name(c.edge));
    let l5 = l4.push(setting_line("edge"@, edge_name(c.edge)));
    let c5 = apply_setting(c4, "edge"@, edge_name(c.edge));
    lemma_config_step(d, t5, l5, "scroll_scale"@, scale);
    let t6 = t5 + setting_text("scroll_scale"@, scale);
    let l6 = l5.push(setting_line("scroll_scale"@, scale));
    let c6 = apply_setting(c5, "scroll_scale"@, scale);
    lemma_config_step(d, t6, l6, "scroll_response"@, response);
    let t7 = t6 + setting_text("scroll_response"@, response);
    let l7 = l6.push(setting_line("scroll_response"@, response));
    let c7 = apply_setting(c6, "scroll_response"@, response);
    lemma_config_step(d, t7, l7, "scroll_max_step"@, max_step);
    let t8 = t7 + setting_text("scroll_max_step"@, max_step);
    let l8 = l7.push(setting_line("scroll_max_step"@, max_step));
    let c8 = apply_setting(c7, "scroll_max_step"@, max_step);
    lemma_config_step(d, t8, l8, "scroll_frame_ms"@, decimal(c.scroll_frame_ms as nat));
    let t9 = t8 + setting_text("scroll_frame_ms"@, decimal(c.scroll_frame_ms as nat));
    let l9 = l8.push(setting_line("scroll_frame_ms"@, decimal(c.scroll_frame_ms as nat)));
    let c9 = apply_setting(c8, "scroll_frame_ms"@, decimal(c.scroll_frame_ms as nat));
    lemma_config_step(d, t9, l9, "mac_command_mapping"@, modifier_target_name(c.mac_command_mapping));
    let t10 = t9 + setting_text("mac_command_mapping"@, modifier_target_name(c.mac_command_mapping));
    let l10 = l9.push(setting_line("mac_command_mapping"@, modifier_target_name(c.mac_command_mapping)));
    let c10 = apply_setting(c9, "mac_command_mapping"@, modifier_target_name(c.mac_command_mapping));
    lemma_config_step(d, t10, l10, "mac_control_mapping"@, modifier_target_name(c.mac_control_mapping));
    let t11 = t10 + setting_text("mac_control_mapping"@, modifier_target_name(c.mac_control_mapping));
    let l11 = l10.push(setting_line("mac_control_mapping"@, modifier_target_name(c.mac_control_mapping)));
    let c11 = apply_setting(c10, "mac_control_mapping"@, modifier_target_name(c.mac_control_mapping));
    lemma_config_step(d, t11, l11, "mac_option_mapping"@, modifier_target_name(c.mac_option_mapping));
    let t12 = t11 + setting_text("mac_option_mapping"@, modifier_target_name(c.mac_option_mapping));
    let l12 = l11.push(setting_line("mac_option_mapping"@, modifier_target_name(c.mac_option_mapping)));
    let c12 = apply_setting(c11, "mac_option_mapping"@, modifier_target_name(c.mac_option_mapping));
    lemma_apply_named(c0, c);
    lemma_apply_named(c1, c);
    lemma_apply_named(c2, c);
    lemma_apply_named(c3, c);
    lemma_apply_named(c4, c);
    lemma_apply_scroll(c5, scale);
    lemma_apply_scroll(c6, response);
    lemma_apply_scroll(c7, max_step);
    lemma_apply_numbers(c8, c);
    lemma_apply_numbers(c9, c);
    lemma_apply_numbers(c10, c);
    lemma_apply_numbers(c11, c);
    assert(t12 =~= spec_render_config(c, scale, response, max_step));
    lemma_config_end(d, l12);
    assert(c12.scroll =~= seq![
        (ScrollSetting::Scale, scale),
        (ScrollSetting::Response, response),
        (ScrollSetting::MaxStep, max_step),
    ]);
}

} // verus!
