use vstd::prelude::*;

use crate::motion::LocalScreenLayout;
use crate::text::{spec_trim, trim};
use crate::tokens::{find_either, first_of, lemma_first_of_bounds, parse_i32, spec_parse_i32};

verus! {

/// An `i32` in base 10, as `str::parse::<i32>` reads it.
pub open spec fn spec_i32(s: Seq<char>) -> Option<i32> {
    match spec_parse_i32(s) {
        Some(v) => Some(v as i32),
        None => None,
    }
}

fn i32_of(s: &str) -> (r: Option<i32>)
    ensures
        r == spec_i32(s@),
{
    parse_i32(s)
}

pub open spec fn is_dimension_char(c: char) -> bool {
    ('0' <= c && c <= '9') || c == 'x' || c == 'X'
}

pub open spec fn trim_start_non_dim(s: Seq<char>) -> Seq<char>
    decreases s.len(),
{
    if s.len() > 0 && !is_dimension_char(s[0]) {
        trim_start_non_dim(s.drop_first())
    } else {
        s
    }
}

pub open spec fn trim_end_non_dim(s: Seq<char>) -> Seq<char>
    decreases s.len(),
{
    if s.len() > 0 && !is_dimension_char(s.last()) {
        trim_end_non_dim(s.drop_last())
    } else {
        s
    }
}

/// Two numbers written `WIDTHxHEIGHT` (either case of `x`), with anything
/// but digits and `x` trimmed off both ends.
pub open spec fn spec_parse_size_pair(t: Seq<char>) -> Option<(i32, i32)> {
    let u = trim_end_non_dim(trim_start_non_dim(t));
    match first_of(u, 0, 'x', 'X') {
        Some(k) => match (spec_i32(u.take(k)), spec_i32(u.skip(k + 1))) {
            (Some(w), Some(h)) => Some((w, h)),
            _ => None,
        },
        None => None,
    }
}

fn dimension_char(c: char) -> (r: bool)
    ensures
        r == is_dimension_char(c),
{
    ('0' <= c && c <= '9') || c == 'x' || c == 'X'
}

/// The size a token such as `1920x1080` gives.
pub fn parse_size_pair(token: &str) -> (r: Option<(i32, i32)>)
    ensures
        r == spec_parse_size_pair(token@),
{
    let n = token.unicode_len();
    let mut start: usize = 0;
    assert(token@.subrange(0, n as int) =~= token@);
    while start < n && !dimension_char(token.get_char(start))
        invariant
            n == token@.len(),
            start <= n,
            trim_start_non_dim(token@) == trim_start_non_dim(token@.subrange(start as int, n as int)),
        decreases n - start,
    {
        assert(token@.subrange(start as int, n as int).drop_first() =~= token@.subrange(
            start + 1,
            n as int,
        ));
        start = start + 1;
    }
    let mut end: usize = n;
    while end > start && !dimension_char(token.get_char(end - 1))
        invariant
            n == token@.len(),
            start <= end <= n,
            trim_end_non_dim(trim_start_non_dim(token@)) == trim_end_non_dim(
                token@.subrange(start as int, end as int),
            ),
        decreases end,
    {
        assert(token@.subrange(start as int, end as int).drop_last() =~= token@.subrange(
            start as int,
            end - 1,
        ));
        end = end - 1;
    }
    let core = token.substring_char(start, end);
    proof {
        lemma_first_of_bounds(core@, 0, 'x', 'X');
    }
    match find_either(core, 'x', 'X') {
        Some(k) => {
            let m = core.unicode_len();
            let w = i32_of(core.substring_char(0, k));
            let h = i32_of(core.substring_char(k + 1, m));
            proof {
                assert(core@.subrange(0, k as int) =~= core@.take(k as int));
                assert(core@.subrange(k + 1, m as int) =~= core@.skip(k + 1));
            }
            match (w, h) {
                (Some(w), Some(h)) => Some((w, h)),
                _ => None,
            }
        },
        None => None,
    }
}

/// A position written `+X+Y`, white space around it allowed.
pub open spec fn spec_parse_position_token(t: Seq<char>) -> Option<(i32, i32)> {
    let u = spec_trim(t);
    if u.len() > 0 && u[0] == '+' {
        let rest = u.drop_first();
        match first_of(rest, 0, '+', '+') {
            Some(k) => match (spec_i32(rest.take(k)), spec_i32(rest.skip(k + 1))) {
                (Some(x), Some(y)) => Some((x, y)),
                _ => None,
            },
            None => None,
        }
    } else {
        None
    }
}

/// The position a token such as `+1920+0` gives.
pub fn parse_position_token(token: &str) -> (r: Option<(i32, i32)>)
    ensures
        r == spec_parse_position_token(token@),
{
    let u = trim(token);
    let n = u.unicode_len();
    if n == 0 || u.get_char(0) != '+' {
        return None;
    }
    let rest = u.substring_char(1, n);
    assert(rest@ =~= u@.drop_first());
    proof {
        lemma_first_of_bounds(rest@, 0, '+', '+');
    }
    match find_either(rest, '+', '+') {
        Some(k) => {
            let m = rest.unicode_len();
            let x = i32_of(rest.substring_char(0, k));
            let y = i32_of(rest.substring_char(k + 1, m));
            proof {
                assert(rest@.subrange(0, k as int) =~= rest@.take(k as int));
                assert(rest@.subrange(k + 1, m as int) =~= rest@.skip(k + 1));
            }
            match (x, y) {
                (Some(x), Some(y)) => Some((x, y)),
                _ => None,
            }
        },
        None => None,
    }
}

/// The layout `LocalScreenLayout::new` makes.
pub open spec fn spec_layout(x: i32, y: i32, w: i32, h: i32) -> LocalScreenLayout {
    LocalScreenLayout {
        origin_x: x,
        origin_y: y,
        width: if w < 1 {
            1
        } else {
            w
        },
        height: if h < 1 {
            1
        } else {
            h
        },
    }
}

/// A layout written `WIDTHxHEIGHT@+X+Y` or `WIDTHxHEIGHT+X+Y`.
pub open spec fn spec_parse_layout_token(t: Seq<char>) -> Option<LocalScreenLayout> {
    match first_of(t, 0, '@', '@') {
        Some(k) => match (spec_parse_size_pair(t.take(k)), spec_parse_position_token(t.skip(k + 1))) {
            (Some((w, h)), Some((x, y))) => Some(spec_layout(x, y, w, h)),
            _ => None,
        },
        None => match first_of(t, 0, '+', '+') {
            Some(k) => match (
                spec_parse_size_pair(t.take(k)),
                spec_parse_position_token(seq!['+'] + t.skip(k + 1)),
            ) {
                (Some((w, h)), Some((x, y))) => Some(spec_layout(x, y, w, h)),
                _ => None,
            },
            None => None,
        },
    }
}

/// The layout a token such as `2560x1440@+0+0` gives.
pub fn parse_layout_token(token: &str) -> (r: Option<LocalScreenLayout>)
    ensures
        r == spec_parse_layout_token(token@),
{
    let n = token.unicode_len();
    proof {
        lemma_first_of_bounds(token@, 0, '@', '@');
        lemma_first_of_bounds(token@, 0, '+', '+');
    }
    match find_either(token, '@', '@') {
        Some(k) => {
            let size = token.substring_char(0, k);
            let pos = token.substring_char(k + 1, n);
            assert(size@ =~= token@.take(k as int));
            assert(pos@ =~= token@.skip(k + 1));
            match (parse_size_pair(size), parse_position_token(pos)) {
                (Some((w, h)), Some((x, y))) => Some(LocalScreenLayout::new(x, y, w, h)),
                _ => None,
            }
        },
        None => match find_either(token, '+', '+') {
            Some(k) => {
                let size = token.substring_char(0, k);
                assert(size@ =~= token@.take(k as int));
                let mut pos = String::from_str("+");
                pos.append(token.substring_char(k + 1, n));
                proof {
                    reveal_strlit("+");
                    assert(pos@ =~= seq!['+'] + token@.skip(k + 1));
                }
                match (parse_size_pair(size), parse_position_token(pos.as_str())) {
                    (Some((w, h)), Some((x, y))) => Some(LocalScreenLayout::new(x, y, w, h)),
                    _ => None,
                }
            },
            None => None,
        },
    }
}

/// A pointer position written `X,Y` or `XxY` (either case), each number
/// trimmed.
pub open spec fn spec_parse_pointer_start(v: Seq<char>) -> Option<(i32, i32)> {
    match first_of3(v, 0) {
        Some(k) => match (spec_i32(spec_trim(v.take(k))), spec_i32(spec_trim(v.skip(k + 1)))) {
            (Some(x), Some(y)) => Some((x, y)),
            _ => None,
        },
        None => None,
    }
}

/// The first index from `i` on of `,`, `x` or `X`.
pub open spec fn first_of3(s: Seq<char>, i: int) -> Option<int>
    decreases s.len() - i,
{
    if i < 0 || i >= s.len() {
        None
    } else if s[i] == ',' || s[i] == 'x' || s[i] == 'X' {
        Some(i)
    } else {
        first_of3(s, i + 1)
    }
}

/// The pointer start position an override gives.
pub fn parse_pointer_start(value: &str) -> (r: Option<(i32, i32)>)
    ensures
        r == spec_parse_pointer_start(value@),
{
    let n = value.unicode_len();
    let mut i: usize = 0;
    while i < n
        invariant
            n == value@.len(),
            i <= n,
            first_of3(value@, 0) == first_of3(value@, i as int),
        decreases n - i,
    {
        let c = value.get_char(i);
        if c == ',' || c == 'x' || c == 'X' {
            let x = i32_of(trim(value.substring_char(0, i)));
            let y = i32_of(trim(value.substring_char(i + 1, n)));
            assert(value@.subrange(0, i as int) =~= value@.take(i as int));
            assert(value@.subrange(i + 1, n as int) =~= value@.skip(i + 1));
            return match (x, y) {
                (Some(x), Some(y)) => Some((x, y)),
                _ => None,
            };
        }
        i = i + 1;
    }
    None
}

} // verus!
