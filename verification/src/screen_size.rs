use vstd::prelude::*;

use crate::display::DisplayServer;
use crate::keymap::valid_screen_size;
use crate::lines::str_views;
use crate::tokens::{
    find_either, find_str, first_match, first_of, lemma_first_of_bounds, lemma_first_match_bounds,
    lemma_split_on_nonempty, nonempty_pieces, parse_u32, spec_parse_unsigned, split_char, split_on,
    split_whitespace, str_contains, contains_chars, words,
};

verus! {

/// The largest `u32`.
pub open spec fn u32_max() -> nat {
    0xffff_ffff
}

/// A `u32` in base 10, as `str::parse::<u32>` reads it.
pub open spec fn spec_u32(s: Seq<char>) -> Option<u32> {
    match spec_parse_unsigned(s, 10, u32_max()) {
        Some(v) => Some(v as u32),
        None => None,
    }
}

/// A size of at least one pixel each way.
pub open spec fn valid_size(w: u32, h: u32) -> (u32, u32) {
    ((if w < 1 {
        1u32
    } else {
        w
    }), (if h < 1 {
        1u32
    } else {
        h
    }))
}

pub open spec fn is_ascii_alnum(c: char) -> bool {
    ('0' <= c && c <= '9') || ('a' <= c && c <= 'z') || ('A' <= c && c <= 'Z')
}

fn ascii_alnum(c: char) -> (r: bool)
    ensures
        r == is_ascii_alnum(c),
{
    ('0' <= c && c <= '9') || ('a' <= c && c <= 'z') || ('A' <= c && c <= 'Z')
}

pub open spec fn trim_start_non_alnum(s: Seq<char>) -> Seq<char>
    decreases s.len(),
{
    if s.len() > 0 && !is_ascii_alnum(s[0]) {
        trim_start_non_alnum(s.drop_first())
    } else {
        s
    }
}

pub open spec fn trim_end_non_alnum(s: Seq<char>) -> Seq<char>
    decreases s.len(),
{
    if s.len() > 0 && !is_ascii_alnum(s.last()) {
        trim_end_non_alnum(s.drop_last())
    } else {
        s
    }
}

/// `s` without trailing "px", removed as often as it occurs.
pub open spec fn strip_px(s: Seq<char>) -> Seq<char>
    decreases s.len(),
{
    if s.len() >= 2 && s[s.len() - 2] == 'p' && s.last() == 'x' {
        strip_px(s.take(s.len() - 2))
    } else {
        s
    }
}

/// What is left of a size token to read: characters that are not ASCII
/// letters or digits trimmed off both ends, then any trailing "px".
pub open spec fn size_core(t: Seq<char>) -> Seq<char> {
    strip_px(trim_end_non_alnum(trim_start_non_alnum(t)))
}

/// A size written `WIDTHxHEIGHT` (either case of `x`), with any
/// punctuation around it and a "px" unit allowed; a size of zero counts as
/// one.
pub open spec fn spec_parse_size_token(t: Seq<char>) -> Option<(u32, u32)> {
    let u = size_core(t);
    match first_of(u, 0, 'x', 'X') {
        Some(k) => match (spec_u32(u.take(k)), spec_u32(u.skip(k + 1))) {
            (Some(w), Some(h)) => Some(valid_size(w, h)),
            _ => None,
        },
        None => None,
    }
}

fn size_core_of(token: &str) -> (r: &str)
    ensures
        r@ == size_core(token@),
{
    let n = token.unicode_len();
    let mut start: usize = 0;
    assert(token@.subrange(0, n as int) =~= token@);
    while start < n && !ascii_alnum(token.get_char(start))
        invariant
            n == token@.len(),
            start <= n,
            trim_start_non_alnum(token@) == trim_start_non_alnum(
                token@.subrange(start as int, n as int),
            ),
        decreases n - start,
    {
        assert(token@.subrange(start as int, n as int).drop_first() =~= token@.subrange(
            start + 1,
            n as int,
        ));
        start = start + 1;
    }
    assert(trim_start_non_alnum(token@.subrange(start as int, n as int)) == token@.subrange(
        start as int,
        n as int,
    ));
    let mut end: usize = n;
    while end > start && !ascii_alnum(token.get_char(end - 1))
        invariant
            n == token@.len(),
            start <= end <= n,
            trim_end_non_alnum(trim_start_non_alnum(token@)) == trim_end_non_alnum(
                token@.subrange(start as int, end as int),
            ),
        decreases end,
    {
        assert(token@.subrange(start as int, end as int).drop_last() =~= token@.subrange(
            start as int,
            end - 1,
        ));
        end = end - 1;
    }
    assert(trim_end_non_alnum(token@.subrange(start as int, end as int)) == token@.subrange(
        start as int,
        end as int,
    ));
    while end - start >= 2 && token.get_char(end - 2) == 'p' && token.get_char(end - 1) == 'x'
        invariant
            n == token@.len(),
            start <= end <= n,
            size_core(token@) == strip_px(token@.subrange(start as int, end as int)),
        decreases end,
    {
        let ghost cur = token@.subrange(start as int, end as int);
        assert(cur[cur.len() - 2] == 'p');
        assert(cur.last() == 'x');
        assert(cur.take(cur.len() - 2) =~= token@.subrange(start as int, end - 2));
        end = end - 2;
    }
    token.substring_char(start, end)
}

/// The size a token gives, if it is one.
pub fn parse_size_token(token: &str) -> (r: Option<(u32, u32)>)
    ensures
        r == spec_parse_size_token(token@),
{
    let core = size_core_of(token);
    proof {
        lemma_first_of_bounds(core@, 0, 'x', 'X');
    }
    match find_either(core, 'x', 'X') {
        Some(k) => {
            let n = core.unicode_len();
            let w = parse_u32(core.substring_char(0, k));
            let h = parse_u32(core.substring_char(k + 1, n));
            proof {
                assert(core@.subrange(0, k as int) =~= core@.take(k as int));
                assert(core@.subrange(k + 1, n as int) =~= core@.skip(k + 1));
            }
            match (w, h) {
                (Some(w), Some(h)) => Some(valid_screen_size(w, h)),
                _ => None,
            }
        },
        None => None,
    }
}

/// The first size among the tokens.
pub open spec fn first_size(tokens: Seq<Seq<char>>) -> Option<(u32, u32)>
    decreases tokens.len(),
{
    if tokens.len() == 0 {
        None
    } else {
        match spec_parse_size_token(tokens[0]) {
            Some(v) => Some(v),
            None => first_size(tokens.drop_first()),
        }
    }
}

fn first_size_of(tokens: &Vec<&str>) -> (r: Option<(u32, u32)>)
    ensures
        r == first_size(str_views(tokens@)),
{
    let mut k: usize = 0;
    assert(str_views(tokens@).skip(0) =~= str_views(tokens@));
    while k < tokens.len()
        invariant
            k <= tokens@.len(),
            first_size(str_views(tokens@)) == first_size(str_views(tokens@).skip(k as int)),
        decreases tokens@.len() - k,
    {
        let ghost rest = str_views(tokens@).skip(k as int);
        assert(rest[0] == tokens@[k as int]@);
        assert(rest.drop_first() =~= str_views(tokens@).skip(k + 1));
        if let Some(size) = parse_size_token(tokens[k]) {
            return Some(size);
        }
        k = k + 1;
    }
    None
}

/// The size on the first line that holds "dimensions:" and a size.
pub open spec fn xdpyinfo_size(lines: Seq<Seq<char>>) -> Option<(u32, u32)>
    decreases lines.len(),
{
    if lines.len() == 0 {
        None
    } else {
        let here = if contains_chars(lines[0], "dimensions:"@) {
            first_size(words(lines[0]))
        } else {
            None
        };
        match here {
            Some(v) => Some(v),
            None => xdpyinfo_size(lines.drop_first()),
        }
    }
}

/// The screen size in the output of `xdpyinfo`.
pub open spec fn spec_parse_xdpyinfo_dimensions(text: Seq<char>) -> Option<(u32, u32)> {
    xdpyinfo_size(split_on(text, '\n'))
}

/// The screen size in the output of `xdpyinfo`.
pub fn parse_xdpyinfo_dimensions(text: &str) -> (r: Option<(u32, u32)>)
    ensures
        r == spec_parse_xdpyinfo_dimensions(text@),
{
    let lines = split_char(text, '\n');
    let mut k: usize = 0;
    assert(str_views(lines@).skip(0) =~= str_views(lines@));
    while k < lines.len()
        invariant
            k <= lines@.len(),
            str_views(lines@) == split_on(text@, '\n'),
            spec_parse_xdpyinfo_dimensions(text@) == xdpyinfo_size(
                str_views(lines@).skip(k as int),
            ),
        decreases lines@.len() - k,
    {
        let ghost rest = str_views(lines@).skip(k as int);
        assert(rest[0] == lines@[k as int]@);
        assert(rest.drop_first() =~= str_views(lines@).skip(k + 1));
        let line = lines[k];
        if str_contains(line, "dimensions:") {
            let tokens = split_whitespace(line);
            if let Some(size) = first_size_of(&tokens) {
                return Some(size);
            }
        }
        k = k + 1;
    }
    None
}


/// `s` without any of `a` and `b` at its start.
pub open spec fn trim_start_of(s: Seq<char>, a: char, b: char) -> Seq<char>
    decreases s.len(),
{
    if s.len() > 0 && (s[0] == a || s[0] == b) {
        trim_start_of(s.drop_first(), a, b)
    } else {
        s
    }
}

/// `s` without any of `a` and `b` at its end.
pub open spec fn trim_end_of(s: Seq<char>, a: char, b: char) -> Seq<char>
    decreases s.len(),
{
    if s.len() > 0 && (s.last() == a || s.last() == b) {
        trim_end_of(s.drop_last(), a, b)
    } else {
        s
    }
}

pub(crate) fn trim_start_chars(s: &str, a: char, b: char) -> (r: &str)
    ensures
        r@ == trim_start_of(s@, a, b),
{
    let n = s.unicode_len();
    let mut start: usize = 0;
    assert(s@.subrange(0, n as int) =~= s@);
    while start < n && (s.get_char(start) == a || s.get_char(start) == b)
        invariant
            n == s@.len(),
            start <= n,
            trim_start_of(s@, a, b) == trim_start_of(s@.subrange(start as int, n as int), a, b),
        decreases n - start,
    {
        assert(s@.subrange(start as int, n as int).drop_first() =~= s@.subrange(
            start + 1,
            n as int,
        ));
        start = start + 1;
    }
    s.substring_char(start, n)
}

pub fn trim_both_chars(s: &str, a: char, b: char) -> (r: &str)
    ensures
        r@ == trim_end_of(trim_start_of(s@, a, b), a, b),
{
    let t = trim_start_chars(s, a, b);
    let n = t.unicode_len();
    let mut end: usize = n;
    assert(t@.subrange(0, n as int) =~= t@);
    while end > 0 && (t.get_char(end - 1) == a || t.get_char(end - 1) == b)
        invariant
            n == t@.len(),
            end <= n,
            trim_end_of(t@, a, b) == trim_end_of(t@.subrange(0, end as int), a, b),
        decreases end,
    {
        assert(t@.subrange(0, end as int).drop_last() =~= t@.subrange(0, end - 1));
        end = end - 1;
    }
    t.substring_char(0, end)
}

/// A word with commas and semicolons trimmed off both ends.
pub open spec fn clean_token(t: Seq<char>) -> Seq<char> {
    trim_end_of(trim_start_of(t, ',', ';'), ',', ';')
}

/// The words of `s`, each cleaned, the empty ones left out.
pub open spec fn clean_tokens(s: Seq<char>) -> Seq<Seq<char>> {
    nonempty_pieces(words(s).map_values(|t: Seq<char>| clean_token(t)))
}

fn clean_tokens_of(s: &str) -> (r: Vec<&str>)
    ensures
        str_views(r@) == clean_tokens(s@),
{
    let toks = split_whitespace(s);
    let ghost mapped = str_views(toks@).map_values(|t: Seq<char>| clean_token(t));
    let mut out: Vec<&str> = Vec::new();
    let mut k: usize = 0;
    assert(mapped.take(0) =~= Seq::<Seq<char>>::empty());
    while k < toks.len()
        invariant
            k <= toks@.len(),
            mapped == str_views(toks@).map_values(|t: Seq<char>| clean_token(t)),
            mapped.len() == toks@.len(),
            str_views(out@) == nonempty_pieces(mapped.take(k as int)),
        decreases toks@.len() - k,
    {
        let t = trim_both_chars(toks[k], ',', ';');
        let ghost before = out@;
        proof {
            assert(mapped[k as int] == t@);
            assert(mapped.take(k + 1).drop_last() =~= mapped.take(k as int));
            assert(mapped.take(k + 1).last() == t@);
        }
        if t.unicode_len() > 0 {
            out.push(t);
            assert(str_views(out@) =~= str_views(before).push(t@));
        }
        k = k + 1;
    }
    assert(mapped.take(k as int) =~= mapped);
    out
}

/// The first `WIDTH x HEIGHT` from token `k` on: a token `x` between two
/// numbers.
pub open spec fn size_triple(toks: Seq<Seq<char>>, k: int) -> Option<(u32, u32)>
    decreases toks.len() - k,
{
    if k < 0 || k + 3 > toks.len() {
        None
    } else if toks[k + 1] == "x"@ && spec_u32(toks[k]) is Some && spec_u32(toks[k + 2]) is Some {
        Some(valid_size(spec_u32(toks[k]).unwrap(), spec_u32(toks[k + 2]).unwrap()))
    } else {
        size_triple(toks, k + 1)
    }
}

/// The size after "current" on a line, if there is one.
pub open spec fn current_size_on(line: Seq<char>) -> Option<(u32, u32)> {
    match first_match(line, "current"@, 0) {
        Some(k) => size_triple(clean_tokens(line.skip(k + "current"@.len())), 0),
        None => None,
    }
}

/// The current size from the first line of `xrandr --current` that gives
/// one.
pub open spec fn xrandr_current_size(lines: Seq<Seq<char>>) -> Option<(u32, u32)>
    decreases lines.len(),
{
    if lines.len() == 0 {
        None
    } else {
        match current_size_on(lines[0]) {
            Some(v) => Some(v),
            None => xrandr_current_size(lines.drop_first()),
        }
    }
}

pub open spec fn spec_parse_xrandr_current(text: Seq<char>) -> Option<(u32, u32)> {
    xrandr_current_size(split_on(text, '\n'))
}

fn current_size_of(line: &str) -> (r: Option<(u32, u32)>)
    ensures
        r == current_size_on(line@),
{
    proof {
        lemma_first_match_bounds(line@, "current"@, 0);
        reveal_strlit("current");
    }
    let k = match find_str(line, "current") {
        Some(k) => k,
        None => return None,
    };
    let n = line.unicode_len();
    let after = line.substring_char(k + 7, n);
    assert(after@ =~= line@.skip(k + "current"@.len()));
    let toks = clean_tokens_of(after);
    let ghost tv = str_views(toks@);
    let mut i: usize = 0;
    while i < toks.len() && toks.len() - i >= 3
        invariant
            tv == str_views(toks@),
            tv == clean_tokens(after@),
            current_size_on(line@) == size_triple(tv, i as int),
        decreases toks@.len() - i,
    {
        let w = parse_u32(toks[i]);
        let h = parse_u32(toks[i + 2]);
        proof {
            assert(tv[i as int] == toks@[i as int]@);
            assert(tv[i + 1] == toks@[i + 1]@);
            assert(tv[i + 2] == toks@[i + 2]@);
        }
        if crate::text::str_eq(toks[i + 1], "x") {
            if let (Some(w), Some(h)) = (w, h) {
                return Some(valid_screen_size(w, h));
            }
        }
        i = i + 1;
    }
    None
}

/// The current screen size in the output of `xrandr --current`.
pub fn parse_xrandr_current(text: &str) -> (r: Option<(u32, u32)>)
    ensures
        r == spec_parse_xrandr_current(text@),
{
    let lines = split_char(text, '\n');
    let mut k: usize = 0;
    assert(str_views(lines@).skip(0) =~= str_views(lines@));
    while k < lines.len()
        invariant
            k <= lines@.len(),
            spec_parse_xrandr_current(text@) == xrandr_current_size(
                str_views(lines@).skip(k as int),
            ),
        decreases lines@.len() - k,
    {
        let ghost rest = str_views(lines@).skip(k as int);
        assert(rest[0] == lines@[k as int]@);
        assert(rest.drop_first() =~= str_views(lines@).skip(k + 1));
        if let Some(size) = current_size_of(lines[k]) {
            return Some(size);
        }
        k = k + 1;
    }
    None
}


/// A monitor's geometry as `xrandr --listmonitors` writes it:
/// `WIDTH/MMxHEIGHT/MM+X+Y`, with any `+` or `*` flags before it; gives
/// width, height, x and y.
pub open spec fn spec_monitor_geometry(t: Seq<char>) -> Option<(u32, u32, u32, u32)> {
    let u = trim_start_of(t, '+', '*');
    match first_of(u, 0, 'x', 'x') {
        Some(k) => {
            let parts = split_on(u.skip(k + 1), '+');
            if parts.len() >= 3 {
                match (
                    spec_u32(split_on(u.take(k), '/')[0]),
                    spec_u32(split_on(parts[0], '/')[0]),
                    spec_u32(parts[1]),
                    spec_u32(parts[2]),
                ) {
                    (Some(w), Some(h), Some(x), Some(y)) => Some((w, h, x, y)),
                    _ => None,
                }
            } else {
                None
            }
        },
        None => None,
    }
}

pub(crate) fn first_piece<'a>(s: &'a str, sep: char) -> (r: &'a str)
    ensures
        r@ == split_on(s@, sep)[0],
{
    let pieces = split_char(s, sep);
    proof {
        lemma_split_on_nonempty(s@, sep);
        assert(str_views(pieces@)[0] == pieces@[0]@);
    }
    pieces[0]
}

/// The geometry of one monitor in the output of `xrandr --listmonitors`.
pub fn parse_xrandr_monitor_geometry(token: &str) -> (r: Option<(u32, u32, u32, u32)>)
    ensures
        r == spec_monitor_geometry(token@),
{
    let u = trim_start_chars(token, '+', '*');
    proof {
        lemma_first_of_bounds(u@, 0, 'x', 'x');
    }
    let k = match find_either(u, 'x', 'x') {
        Some(k) => k,
        None => return None,
    };
    let n = u.unicode_len();
    let width_part = u.substring_char(0, k);
    let rest = u.substring_char(k + 1, n);
    assert(width_part@ =~= u@.take(k as int));
    assert(rest@ =~= u@.skip(k + 1));
    let parts = split_char(rest, '+');
    if parts.len() < 3 {
        return None;
    }
    proof {
        assert(str_views(parts@)[0] == parts@[0]@);
        assert(str_views(parts@)[1] == parts@[1]@);
        assert(str_views(parts@)[2] == parts@[2]@);
    }
    let w = parse_u32(first_piece(width_part, '/'));
    let h = parse_u32(first_piece(parts[0], '/'));
    let x = parse_u32(parts[1]);
    let y = parse_u32(parts[2]);
    match (w, h, x, y) {
        (Some(w), Some(h), Some(x), Some(y)) => Some((w, h, x, y)),
        _ => None,
    }
}

pub open spec fn sat_add_u32(a: u32, b: u32) -> u32 {
    if a + b > u32_max() {
        0xffff_ffffu32
    } else {
        (a + b) as u32
    }
}

pub open spec fn max_u32(a: u32, b: u32) -> u32 {
    if a >= b {
        a
    } else {
        b
    }
}

/// The right and bottom edges so far, widened to take in one more token's
/// monitor.
pub open spec fn extent_step(acc: (u32, u32), t: Seq<char>) -> (u32, u32) {
    match spec_monitor_geometry(t) {
        Some((w, h, x, y)) => (max_u32(acc.0, sat_add_u32(x, w)), max_u32(acc.1, sat_add_u32(y, h))),
        None => acc,
    }
}

pub open spec fn extent_tokens(acc: (u32, u32), toks: Seq<Seq<char>>) -> (u32, u32)
    decreases toks.len(),
{
    if toks.len() == 0 {
        acc
    } else {
        extent_tokens(extent_step(acc, toks[0]), toks.drop_first())
    }
}

/// The edges over the monitors on the lines that hold a `:`.
pub open spec fn extent_lines(acc: (u32, u32), lines: Seq<Seq<char>>) -> (u32, u32)
    decreases lines.len(),
{
    if lines.len() == 0 {
        acc
    } else {
        let next = if contains_chars(lines[0], ":"@) {
            extent_tokens(acc, words(lines[0]))
        } else {
            acc
        };
        extent_lines(next, lines.drop_first())
    }
}

/// The screen size `xrandr --listmonitors` gives: the furthest right and
/// bottom edges of the monitors, when both are past zero.
pub open spec fn spec_parse_xrandr_monitor_list(text: Seq<char>) -> Option<(u32, u32)> {
    let e = extent_lines((0u32, 0u32), split_on(text, '\n'));
    if e.0 != 0 && e.1 != 0 {
        Some(valid_size(e.0, e.1))
    } else {
        None
    }
}

fn extent_of_tokens(acc: (u32, u32), toks: &Vec<&str>) -> (r: (u32, u32))
    ensures
        r == extent_tokens(acc, str_views(toks@)),
{
    let mut cur = acc;
    let mut k: usize = 0;
    assert(str_views(toks@).skip(0) =~= str_views(toks@));
    while k < toks.len()
        invariant
            k <= toks@.len(),
            extent_tokens(acc, str_views(toks@)) == extent_tokens(
                cur,
                str_views(toks@).skip(k as int),
            ),
        decreases toks@.len() - k,
    {
        let ghost rest = str_views(toks@).skip(k as int);
        assert(rest[0] == toks@[k as int]@);
        assert(rest.drop_first() =~= str_views(toks@).skip(k + 1));
        if let Some((w, h, x, y)) = parse_xrandr_monitor_geometry(toks[k]) {
            let right = x.saturating_add(w);
            let bottom = y.saturating_add(h);
            cur = (
                if cur.0 >= right {
                    cur.0
                } else {
                    right
                },
                if cur.1 >= bottom {
                    cur.1
                } else {
                    bottom
                },
            );
        }
        k = k + 1;
    }
    cur
}

/// The screen size in the output of `xrandr --listmonitors`.
pub fn parse_xrandr_monitor_list(text: &str) -> (r: Option<(u32, u32)>)
    ensures
        r == spec_parse_xrandr_monitor_list(text@),
{
    let lines = split_char(text, '\n');
    let mut cur: (u32, u32) = (0, 0);
    let mut k: usize = 0;
    assert(str_views(lines@).skip(0) =~= str_views(lines@));
    while k < lines.len()
        invariant
            k <= lines@.len(),
            str_views(lines@) == split_on(text@, '\n'),
            extent_lines((0u32, 0u32), split_on(text@, '\n')) == extent_lines(
                cur,
                str_views(lines@).skip(k as int),
            ),
        decreases lines@.len() - k,
    {
        let ghost rest = str_views(lines@).skip(k as int);
        assert(rest[0] == lines@[k as int]@);
        assert(rest.drop_first() =~= str_views(lines@).skip(k + 1));
        if str_contains(lines[k], ":") {
            let toks = split_whitespace(lines[k]);
            cur = extent_of_tokens(cur, &toks);
        }
        k = k + 1;
    }
    if cur.0 != 0 && cur.1 != 0 {
        Some(valid_screen_size(cur.0, cur.1))
    } else {
        None
    }
}

pub open spec fn sat_mul_u32(a: u32, b: u32) -> u32 {
    if a * b > u32_max() {
        0xffff_ffffu32
    } else {
        (a * b) as u32
    }
}

/// The larger of the size so far and one more token's size, by area; on a
/// tie the earlier stays.
pub open spec fn wlr_step(acc: Option<(u32, u32)>, t: Seq<char>) -> Option<(u32, u32)> {
    match spec_parse_size_token(t) {
        Some(size) => match acc {
            Some((w, h)) => if sat_mul_u32(w, h) >= sat_mul_u32(size.0, size.1) {
                Some((w, h))
            } else {
                Some(size)
            },
            None => Some(size),
        },
        None => acc,
    }
}

pub open spec fn wlr_tokens(acc: Option<(u32, u32)>, toks: Seq<Seq<char>>) -> Option<(u32, u32)>
    decreases toks.len(),
{
    if toks.len() == 0 {
        acc
    } else {
        wlr_tokens(wlr_step(acc, toks[0]), toks.drop_first())
    }
}

/// The largest mode over the lines that hold "current" or "preferred".
pub open spec fn wlr_lines(acc: Option<(u32, u32)>, lines: Seq<Seq<char>>) -> Option<(u32, u32)>
    decreases lines.len(),
{
    if lines.len() == 0 {
        acc
    } else {
        let next = if contains_chars(lines[0], "current"@) || contains_chars(
            lines[0],
            "preferred"@,
        ) {
            wlr_tokens(acc, words(lines[0]))
        } else {
            acc
        };
        wlr_lines(next, lines.drop_first())
    }
}

pub open spec fn spec_parse_wlr_randr(text: Seq<char>) -> Option<(u32, u32)> {
    wlr_lines(None, split_on(text, '\n'))
}

fn saturating_mul_u32(a: u32, b: u32) -> (r: u32)
    ensures
        r == sat_mul_u32(a, b),
{
    assert((a as int) * (b as int) <= 0xffff_ffff * 0xffff_ffff) by (nonlinear_arith)
        requires
            a <= 0xffff_ffff,
            b <= 0xffff_ffff,
            0 <= a,
            0 <= b,
    ;
    let p: u64 = (a as u64) * (b as u64);
    if p > 0xffff_ffff {
        0xffff_ffff
    } else {
        p as u32
    }
}

fn wlr_of_tokens(acc: Option<(u32, u32)>, toks: &Vec<&str>) -> (r: Option<(u32, u32)>)
    ensures
        r == wlr_tokens(acc, str_views(toks@)),
{
    let mut cur = acc;
    let mut k: usize = 0;
    assert(str_views(toks@).skip(0) =~= str_views(toks@));
    while k < toks.len()
        invariant
            k <= toks@.len(),
            wlr_tokens(acc, str_views(toks@)) == wlr_tokens(cur, str_views(toks@).skip(k as int)),
        decreases toks@.len() - k,
    {
        let ghost rest = str_views(toks@).skip(k as int);
        assert(rest[0] == toks@[k as int]@);
        assert(rest.drop_first() =~= str_views(toks@).skip(k + 1));
        if let Some(size) = parse_size_token(toks[k]) {
            cur = match cur {
                Some((w, h)) => if saturating_mul_u32(w, h) >= saturating_mul_u32(size.0, size.1) {
                    Some((w, h))
                } else {
                    Some(size)
                },
                None => Some(size),
            };
        }
        k = k + 1;
    }
    cur
}

/// The largest current or preferred mode in the output of `wlr-randr`.
pub fn parse_wlr_randr(text: &str) -> (r: Option<(u32, u32)>)
    ensures
        r == spec_parse_wlr_randr(text@),
{
    let lines = split_char(text, '\n');
    let mut cur: Option<(u32, u32)> = None;
    let mut k: usize = 0;
    assert(str_views(lines@).skip(0) =~= str_views(lines@));
    while k < lines.len()
        invariant
            k <= lines@.len(),
            wlr_lines(None, split_on(text@, '\n')) == wlr_lines(
                cur,
                str_views(lines@).skip(k as int),
            ),
        decreases lines@.len() - k,
    {
        let ghost rest = str_views(lines@).skip(k as int);
        assert(rest[0] == lines@[k as int]@);
        assert(rest.drop_first() =~= str_views(lines@).skip(k + 1));
        if str_contains(lines[k], "current") || str_contains(lines[k], "preferred") {
            let toks = split_whitespace(lines[k]);
            cur = wlr_of_tokens(cur, &toks);
        }
        k = k + 1;
    }
    cur
}

/// The commands a screen size is read from.
#[derive(Debug, Clone, Copy, PartialEq, Eq, Structural)]
pub enum SizeSource {
    /// `xrandr --current`, read by `parse_xrandr_current`.
    XrandrCurrent,
    /// `xrandr --listmonitors`, read by `parse_xrandr_monitor_list`.
    XrandrMonitors,
    /// `xdpyinfo`, read by `parse_xdpyinfo_dimensions`.
    Xdpyinfo,
    /// `wlr-randr`, read by `parse_wlr_randr`.
    WlrRandr,
}

/// The X11 sources, in the order they are tried.
pub open spec fn x11_sources() -> Seq<SizeSource> {
    seq![SizeSource::XrandrCurrent, SizeSource::XrandrMonitors, SizeSource::Xdpyinfo]
}

/// The Wayland sources: wlr-randr, then the X11 ones through XWayland when
/// an X display is named.
pub open spec fn wayland_sources(x_display: bool) -> Seq<SizeSource> {
    seq![SizeSource::WlrRandr] + if x_display { x11_sources() } else { seq![] }
}

/// The sources a screen size is read from, in the order they are tried
/// until one gives a size: the session's own first, then the other kind.
pub open spec fn spec_size_sources(display: DisplayServer, x_display: bool) -> Seq<SizeSource> {
    match display {
        DisplayServer::X11 => x11_sources() + wayland_sources(x_display),
        _ => wayland_sources(x_display) + x11_sources(),
    }
}

fn push_x11_sources(v: &mut Vec<SizeSource>)
    ensures
        final(v)@ == old(v)@ + x11_sources(),
{
    v.push(SizeSource::XrandrCurrent);
    v.push(SizeSource::XrandrMonitors);
    v.push(SizeSource::Xdpyinfo);
    assert(v@ =~= old(v)@ + x11_sources());
}

fn push_wayland_sources(v: &mut Vec<SizeSource>, x_display: bool)
    ensures
        final(v)@ == old(v)@ + wayland_sources(x_display),
{
    v.push(SizeSource::WlrRandr);
    if x_display {
        push_x11_sources(v);
    }
    assert(v@ =~= old(v)@ + wayland_sources(x_display));
}

/// The sources a screen size is read from, given the session kind and
/// whether an X display is named.
pub fn size_sources(display: DisplayServer, x_display: bool) -> (r: Vec<SizeSource>)
    ensures
        r@ == spec_size_sources(display, x_display),
{
    let mut v: Vec<SizeSource> = Vec::new();
    match display {
        DisplayServer::X11 => {
            push_x11_sources(&mut v);
            push_wayland_sources(&mut v, x_display);
        },
        _ => {
            push_wayland_sources(&mut v, x_display);
            push_x11_sources(&mut v);
        },
    }
    assert(v@ =~= spec_size_sources(display, x_display));
    v
}

} // verus!
