use vstd::prelude::*;

use crate::lines::str_views;
use crate::text::{is_whitespace, spec_is_whitespace};

verus! {

/// The pieces of `s` between white-space characters; runs of white space
/// give empty pieces.
pub open spec fn ws_pieces(s: Seq<char>) -> Seq<Seq<char>>
    decreases s.len(),
{
    if s.len() == 0 {
        seq![Seq::empty()]
    } else {
        let prev = ws_pieces(s.drop_last());
        if spec_is_whitespace(s.last()) {
            prev.push(Seq::empty())
        } else {
            prev.update(prev.len() - 1, prev.last().push(s.last()))
        }
    }
}

/// The pieces that are not empty.
pub open spec fn nonempty_pieces(pieces: Seq<Seq<char>>) -> Seq<Seq<char>>
    decreases pieces.len(),
{
    if pieces.len() == 0 {
        seq![]
    } else {
        let prev = nonempty_pieces(pieces.drop_last());
        if pieces.last().len() > 0 {
            prev.push(pieces.last())
        } else {
            prev
        }
    }
}

/// The words of `s`: its maximal runs of characters that are not white
/// space, in order (what `str::split_whitespace` yields).
pub open spec fn words(s: Seq<char>) -> Seq<Seq<char>> {
    nonempty_pieces(ws_pieces(s))
}

/// The words of `s`.
pub fn split_whitespace(s: &str) -> (r: Vec<&str>)
    ensures
        str_views(r@) == words(s@),
{
    let n = s.unicode_len();
    let mut out: Vec<&str> = Vec::new();
    let mut start: usize = 0;
    let mut i: usize = 0;
    proof {
        assert(s@.take(0) =~= Seq::<char>::empty());
        assert(nonempty_pieces(ws_pieces(s@.take(0)).drop_last()) =~= Seq::<Seq<char>>::empty());
        assert(s@.subrange(0, 0) =~= Seq::<char>::empty());
    }
    while i < n
        invariant
            n == s@.len(),
            start <= i <= n,
            ws_pieces(s@.take(i as int)).len() >= 1,
            ws_pieces(s@.take(i as int)).last() == s@.subrange(start as int, i as int),
            str_views(out@) == nonempty_pieces(ws_pieces(s@.take(i as int)).drop_last()),
        decreases n - i,
    {
        let c = s.get_char(i);
        let ghost pieces = ws_pieces(s@.take(i as int));
        let ghost next = s@.take(i + 1);
        proof {
            assert(next.drop_last() =~= s@.take(i as int));
            assert(next.last() == c);
        }
        if is_whitespace(c) {
            let ghost before = out@;
            if i > start {
                out.push(s.substring_char(start, i));
            }
            proof {
                assert(ws_pieces(next) == pieces.push(Seq::empty()));
                assert(ws_pieces(next).drop_last() =~= pieces);
                assert(str_views(out@) =~= nonempty_pieces(pieces));
                assert(s@.subrange(i + 1, i + 1) =~= Seq::<char>::empty());
            }
            start = i + 1;
        } else {
            proof {
                let upd = pieces.update(pieces.len() - 1, pieces.last().push(c));
                assert(ws_pieces(next) == upd);
                assert(upd.drop_last() =~= pieces.drop_last());
                assert(s@.subrange(start as int, i + 1) =~= s@.subrange(
                    start as int,
                    i as int,
                ).push(c));
            }
        }
        i = i + 1;
    }
    proof {
        assert(s@.take(n as int) =~= s@);
    }
    if n > start {
        out.push(s.substring_char(start, n));
    }
    proof {
        assert(str_views(out@) =~= nonempty_pieces(ws_pieces(s@)));
    }
    out
}

/// The value of a digit in base `radix` (at most 36): `0`-`9`, then
/// letters of either case from 10 on.
pub open spec fn digit_value(c: char, radix: nat) -> Option<nat> {
    let v: int = if '0' <= c <= '9' {
        c as int - '0' as int
    } else if 'a' <= c <= 'z' {
        c as int - 'a' as int + 10
    } else if 'A' <= c <= 'Z' {
        c as int - 'A' as int + 10
    } else {
        radix as int
    };
    if v < radix {
        Some(v as nat)
    } else {
        None
    }
}

/// Whether every character is a digit in base `radix`.
pub open spec fn all_digits(d: Seq<char>, radix: nat) -> bool {
    forall|i: int| 0 <= i < d.len() ==> #[trigger] digit_value(d[i], radix) is Some
}

/// The number the digits spell in base `radix`.
pub open spec fn digits_value(d: Seq<char>, radix: nat) -> nat
    decreases d.len(),
{
    if d.len() == 0 {
        0
    } else {
        digits_value(d.drop_last(), radix) * radix + digit_value(d.last(), radix).unwrap()
    }
}

/// The digits of an unsigned number: the text without a leading `+`; none
/// when that leaves nothing.
pub open spec fn unsigned_digits(s: Seq<char>) -> Option<Seq<char>> {
    if s.len() == 0 {
        None
    } else if s[0] == '+' {
        if s.len() == 1 {
            None
        } else {
            Some(s.drop_first())
        }
    } else {
        Some(s)
    }
}

/// An unsigned number in base `radix` no greater than `max`, read as Rust's
/// `from_str_radix` reads one: an optional `+`, then at least one digit.
pub open spec fn spec_parse_unsigned(s: Seq<char>, radix: nat, max: nat) -> Option<nat> {
    match unsigned_digits(s) {
        Some(d) => if all_digits(d, radix) && digits_value(d, radix) <= max {
            Some(digits_value(d, radix))
        } else {
            None
        },
        None => None,
    }
}

/// A signed number in base 10 between `-2^31` and `2^31 - 1`, read as
/// Rust's `i32::from_str` reads one: an optional `+` or `-`, then at least
/// one digit.
pub open spec fn spec_parse_i32(s: Seq<char>) -> Option<int> {
    if s.len() > 0 && s[0] == '-' {
        let d = s.drop_first();
        if d.len() > 0 && all_digits(d, 10) && digits_value(d, 10) <= 0x8000_0000 {
            Some(-(digits_value(d, 10) as int))
        } else {
            None
        }
    } else {
        match spec_parse_unsigned(s, 10, 0x7fff_ffff) {
            Some(v) => Some(v as int),
            None => None,
        }
    }
}

fn digit_of(c: char, radix: u32) -> (r: Option<u32>)
    requires
        2 <= radix <= 36,
    ensures
        match digit_value(c, radix as nat) {
            Some(v) => r == Some(v as u32),
            None => r is None,
        },
{
    let v: u32 = if '0' <= c && c <= '9' {
        (c as u32) - ('0' as u32)
    } else if 'a' <= c && c <= 'z' {
        (c as u32) - ('a' as u32) + 10
    } else if 'A' <= c && c <= 'Z' {
        (c as u32) - ('A' as u32) + 10
    } else {
        radix
    };
    if v < radix {
        Some(v)
    } else {
        None
    }
}

proof fn lemma_digits_value_grows(d: Seq<char>, radix: nat, k: int)
    requires
        1 <= radix,
        0 <= k <= d.len(),
        all_digits(d, radix),
    ensures
        digits_value(d.take(k), radix) <= digits_value(d, radix),
    decreases d.len() - k,
{
    if k < d.len() {
        let d1 = d.take(k + 1);
        assert(d1.drop_last() =~= d.take(k));
        assert(digit_value(d[k], radix) is Some);
        let v = digits_value(d.take(k), radix);
        assert(v <= v * radix) by (nonlinear_arith)
            requires
                1 <= radix,
        ;
        lemma_digits_value_grows(d, radix, k + 1);
    } else {
        assert(d.take(k) =~= d);
    }
}

/// The number the characters `s[from..]` spell in base `radix`, when they
/// are all digits and it is no greater than `max`.
fn parse_digits_from(s: &str, from: usize, radix: u32, max: u128) -> (r: Option<u128>)
    requires
        2 <= radix <= 36,
        from < s@.len(),
    ensures
        ({
            let d = s@.skip(from as int);
            if all_digits(d, radix as nat) && digits_value(d, radix as nat) <= max {
                r == Some(digits_value(d, radix as nat) as u128)
            } else {
                r is None
            }
        }),
{
    let n = s.unicode_len();
    let ghost d = s@.skip(from as int);
    let mut value: u128 = 0;
    let mut i: usize = from;
    proof {
        assert(d.take(0) =~= Seq::<char>::empty());
    }
    while i < n
        invariant
            n == s@.len(),
            from <= i <= n,
            d == s@.skip(from as int),
            2 <= radix <= 36,
            all_digits(d.take(i - from), radix as nat),
            value == digits_value(d.take(i - from), radix as nat),
            value <= max,
        decreases n - i,
    {
        let c = s.get_char(i);
        let ghost k = i - from;
        proof {
            assert(d[k] == c);
            assert(d.take(k + 1).drop_last() =~= d.take(k));
            assert(d.take(k + 1).last() == c);
        }
        let digit = match digit_of(c, radix) {
            Some(v) => v,
            None => {
                proof {
                    assert(!all_digits(d, radix as nat)) by {
                        assert(digit_value(d[k], radix as nat) is None);
                    }
                }
                return None;
            },
        };
        let next = match value.checked_mul(radix as u128) {
            Some(m) => m.checked_add(digit as u128),
            None => None,
        };
        match next {
            Some(v) => {
                if v > max {
                    proof {
                        assert(all_digits(d.take(k + 1), radix as nat)) by {
                            assert forall|j: int| 0 <= j < k + 1 implies #[trigger] digit_value(
                                d.take(k + 1)[j],
                                radix as nat,
                            ) is Some by {
                                if j < k {
                                    assert(d.take(k + 1)[j] == d.take(k)[j]);
                                }
                            }
                        }
                        if all_digits(d, radix as nat) {
                            lemma_digits_value_grows(d, radix as nat, k + 1);
                        }
                    }
                    return None;
                }
                value = v;
            },
            None => {
                proof {
                    if all_digits(d, radix as nat) {
                        lemma_digits_value_grows(d, radix as nat, k + 1);
                    }
                }
                return None;
            },
        }
        proof {
            assert forall|j: int| 0 <= j < k + 1 implies #[trigger] digit_value(
                d.take(k + 1)[j],
                radix as nat,
            ) is Some by {
                if j < k {
                    assert(d.take(k + 1)[j] == d.take(k)[j]);
                }
            }
        }
        i = i + 1;
    }
    proof {
        assert(d.take(n - from) =~= d);
    }
    Some(value)
}

/// An unsigned number in base `radix`, no greater than `max`.
pub fn parse_unsigned(s: &str, radix: u32, max: u128) -> (r: Option<u128>)
    requires
        2 <= radix <= 36,
    ensures
        match spec_parse_unsigned(s@, radix as nat, max as nat) {
            Some(v) => r == Some(v as u128),
            None => r is None,
        },
{
    let n = s.unicode_len();
    if n == 0 {
        return None;
    }
    if s.get_char(0) == '+' {
        if n == 1 {
            return None;
        }
        proof {
            assert(s@.skip(1) =~= s@.drop_first());
        }
        parse_digits_from(s, 1, radix, max)
    } else {
        proof {
            assert(s@.skip(0) =~= s@);
        }
        parse_digits_from(s, 0, radix, max)
    }
}

/// A `u32` in base 10.
pub fn parse_u32(s: &str) -> (r: Option<u32>)
    ensures
        match spec_parse_unsigned(s@, 10, 0xffff_ffff) {
            Some(v) => r == Some(v as u32),
            None => r is None,
        },
{
    match parse_unsigned(s, 10, 0xffff_ffff) {
        Some(v) => Some(v as u32),
        None => None,
    }
}

/// A `u64` in base 10.
pub fn parse_u64(s: &str) -> (r: Option<u64>)
    ensures
        match spec_parse_unsigned(s@, 10, 0xffff_ffff_ffff_ffff) {
            Some(v) => r == Some(v as u64),
            None => r is None,
        },
{
    match parse_unsigned(s, 10, 0xffff_ffff_ffff_ffff) {
        Some(v) => Some(v as u64),
        None => None,
    }
}

/// An `i32` in base 10.
pub fn parse_i32(s: &str) -> (r: Option<i32>)
    ensures
        match spec_parse_i32(s@) {
            Some(v) => r == Some(v as i32),
            None => r is None,
        },
{
    let n = s.unicode_len();
    if n > 0 && s.get_char(0) == '-' {
        if n == 1 {
            return None;
        }
        proof {
            assert(s@.skip(1) =~= s@.drop_first());
        }
        match parse_digits_from(s, 1, 10, 0x8000_0000) {
            Some(v) => {
                let m = v as i64;
                Some((0 - m) as i32)
            },
            None => None,
        }
    } else {
        match parse_unsigned(s, 10, 0x7fff_ffff) {
            Some(v) => Some(v as i32),
            None => None,
        }
    }
}


/// The pieces of `s` between occurrences of `sep` (what `str::split`
/// yields for a character).
pub open spec fn split_on(s: Seq<char>, sep: char) -> Seq<Seq<char>>
    decreases s.len(),
{
    if s.len() == 0 {
        seq![Seq::empty()]
    } else {
        let prev = split_on(s.drop_last(), sep);
        if s.last() == sep {
            prev.push(Seq::empty())
        } else {
            prev.update(prev.len() - 1, prev.last().push(s.last()))
        }
    }
}

pub proof fn lemma_split_on_nonempty(s: Seq<char>, sep: char)
    ensures
        split_on(s, sep).len() >= 1,
    decreases s.len(),
{
    if s.len() > 0 {
        lemma_split_on_nonempty(s.drop_last(), sep);
    }
}

/// The pieces of `s` between occurrences of `sep`.
pub fn split_char(s: &str, sep: char) -> (r: Vec<&str>)
    ensures
        str_views(r@) == split_on(s@, sep),
{
    let n = s.unicode_len();
    let mut out: Vec<&str> = Vec::new();
    let mut start: usize = 0;
    let mut i: usize = 0;
    proof {
        assert(s@.take(0) =~= Seq::<char>::empty());
        assert(split_on(s@.take(0), sep).drop_last() =~= Seq::<Seq<char>>::empty());
        assert(s@.subrange(0, 0) =~= Seq::<char>::empty());
    }
    while i < n
        invariant
            n == s@.len(),
            start <= i <= n,
            split_on(s@.take(i as int), sep).len() >= 1,
            split_on(s@.take(i as int), sep).last() == s@.subrange(start as int, i as int),
            str_views(out@) == split_on(s@.take(i as int), sep).drop_last(),
        decreases n - i,
    {
        let c = s.get_char(i);
        let ghost pieces = split_on(s@.take(i as int), sep);
        let ghost next = s@.take(i + 1);
        proof {
            assert(next.drop_last() =~= s@.take(i as int));
            assert(next.last() == c);
        }
        if c == sep {
            let ghost before = out@;
            out.push(s.substring_char(start, i));
            proof {
                assert(split_on(next, sep) == pieces.push(Seq::empty()));
                assert(split_on(next, sep).drop_last() =~= pieces);
                assert(str_views(out@) =~= str_views(before).push(s@.subrange(start as int, i as int)));
                assert(pieces =~= pieces.drop_last().push(pieces.last()));
                assert(str_views(out@) =~= pieces);
                assert(s@.subrange(i + 1, i + 1) =~= Seq::<char>::empty());
            }
            start = i + 1;
        } else {
            proof {
                let upd = pieces.update(pieces.len() - 1, pieces.last().push(c));
                assert(split_on(next, sep) == upd);
                assert(upd.drop_last() =~= pieces.drop_last());
                assert(s@.subrange(start as int, i + 1) =~= s@.subrange(
                    start as int,
                    i as int,
                ).push(c));
            }
        }
        i = i + 1;
    }
    proof {
        assert(s@.take(n as int) =~= s@);
    }
    let ghost before = out@;
    out.push(s.substring_char(start, n));
    proof {
        let pieces = split_on(s@, sep);
        assert(str_views(out@) =~= str_views(before).push(s@.subrange(start as int, n as int)));
        assert(pieces =~= pieces.drop_last().push(pieces.last()));
        assert(str_views(out@) =~= split_on(s@, sep));
    }
    out
}

/// The first index from `i` on where `s` holds `a` or `b`.
pub open spec fn first_of(s: Seq<char>, i: int, a: char, b: char) -> Option<int>
    decreases s.len() - i,
{
    if i < 0 || i >= s.len() {
        None
    } else if s[i] == a || s[i] == b {
        Some(i)
    } else {
        first_of(s, i + 1, a, b)
    }
}

pub proof fn lemma_first_of_bounds(s: Seq<char>, i: int, a: char, b: char)
    requires
        0 <= i,
    ensures
        first_of(s, i, a, b) matches Some(k) ==> i <= k < s.len() && (s[k] == a || s[k] == b),
        first_of(s, i, a, b) matches Some(k) ==> forall|j: int|
            i <= j < k ==> s[j] != a && s[j] != b,
        first_of(s, i, a, b) is None ==> forall|j: int| i <= j < s.len() ==> s[j] != a && s[j] != b,
    decreases s.len() - i,
{
    if i < s.len() && !(s[i] == a || s[i] == b) {
        lemma_first_of_bounds(s, i + 1, a, b);
    }
}

/// The first index of `a` or `b` in `s`.
pub fn find_either(s: &str, a: char, b: char) -> (r: Option<usize>)
    ensures
        match first_of(s@, 0, a, b) {
            Some(k) => r == Some(k as usize),
            None => r is None,
        },
{
    let n = s.unicode_len();
    let mut i: usize = 0;
    while i < n
        invariant
            n == s@.len(),
            i <= n,
            first_of(s@, 0, a, b) == first_of(s@, i as int, a, b),
        decreases n - i,
    {
        let c = s.get_char(i);
        if c == a || c == b {
            return Some(i);
        }
        i = i + 1;
    }
    None
}

/// The first index from `i` on where `p` occurs in `s`.
pub open spec fn first_match(s: Seq<char>, p: Seq<char>, i: int) -> Option<int>
    decreases s.len() - i + 1,
{
    if i < 0 || i + p.len() > s.len() {
        None
    } else if s.subrange(i, i + p.len()) == p {
        Some(i)
    } else {
        first_match(s, p, i + 1)
    }
}

pub proof fn lemma_first_match_bounds(s: Seq<char>, p: Seq<char>, i: int)
    requires
        0 <= i,
    ensures
        first_match(s, p, i) matches Some(k) ==> i <= k && k + p.len() <= s.len()
            && s.subrange(k, k + p.len()) == p,
        first_match(s, p, i) is None ==> forall|j: int|
            i <= j && j + p.len() <= s.len() ==> #[trigger] s.subrange(j, j + p.len()) != p,
    decreases s.len() - i + 1,
{
    if i + p.len() <= s.len() && s.subrange(i, i + p.len()) != p {
        lemma_first_match_bounds(s, p, i + 1);
    }
}

/// The first index where `p` occurs in `s`.
pub fn find_str(s: &str, p: &str) -> (r: Option<usize>)
    ensures
        match first_match(s@, p@, 0) {
            Some(k) => r == Some(k as usize),
            None => r is None,
        },
{
    let n = s.unicode_len();
    let m = p.unicode_len();
    if m > n {
        return None;
    }
    let mut i: usize = 0;
    while i <= n - m
        invariant
            n == s@.len(),
            m == p@.len(),
            m <= n,
            i <= n - m + 1,
            first_match(s@, p@, 0) == first_match(s@, p@, i as int),
        decreases n - i,
    {
        let mut j: usize = 0;
        let mut same = true;
        while j < m
            invariant
                n == s@.len(),
                m == p@.len(),
                i + m <= n,
                j <= m,
                same == forall|q: int| 0 <= q < j ==> s@[i + q] == p@[q],
            decreases m - j,
        {
            let at: usize = i + j;
            if s.get_char(at) != p.get_char(j) {
                same = false;
            }
            j = j + 1;
        }
        if same {
            assert(s@.subrange(i as int, i + m) =~= p@);
            return Some(i);
        }
        proof {
            let q = choose|q: int| 0 <= q < m && s@[i + q] != p@[q];
            assert(s@.subrange(i as int, i + m)[q] != p@[q]);
        }
        i = i + 1;
    }
    None
}

/// Whether `p` occurs in `s`.
pub open spec fn contains_chars(s: Seq<char>, p: Seq<char>) -> bool {
    first_match(s, p, 0) is Some
}

pub fn str_contains(s: &str, p: &str) -> (r: bool)
    ensures
        r == contains_chars(s@, p@),
{
    find_str(s, p).is_some()
}


/// The pieces of `s` between occurrences of `p` (what `str::split` yields
/// for a non-empty pattern).
pub open spec fn split_str(s: Seq<char>, p: Seq<char>) -> Seq<Seq<char>>
    recommends
        p.len() > 0,
    decreases s.len(),
{
    match first_match(s, p, 0) {
        Some(k) => if p.len() > 0 && 0 <= k && k + p.len() <= s.len() {
            seq![s.take(k)] + split_str(s.skip(k + p.len()), p)
        } else {
            seq![s]
        },
        None => seq![s],
    }
}

/// The pieces of `s` between occurrences of `p`.
pub fn split_on_str<'a>(s: &'a str, p: &str) -> (r: Vec<&'a str>)
    requires
        p@.len() > 0,
    ensures
        str_views(r@) == split_str(s@, p@),
{
    let mut out: Vec<&'a str> = Vec::new();
    let mut rest: &'a str = s;
    let m = p.unicode_len();
    loop
        invariant
            m == p@.len(),
            m > 0,
            split_str(s@, p@) == str_views(out@) + split_str(rest@, p@),
        decreases rest@.len(),
    {
        proof {
            lemma_first_match_bounds(rest@, p@, 0);
        }
        match find_str(rest, p) {
            Some(k) => {
                let n = rest.unicode_len();
                let head = rest.substring_char(0, k);
                let tail = rest.substring_char(k + m, n);
                let ghost before = out@;
                out.push(head);
                proof {
                    assert(head@ =~= rest@.take(k as int));
                    assert(tail@ =~= rest@.skip(k + m));
                    assert(str_views(out@) =~= str_views(before).push(head@));
                    assert(split_str(rest@, p@) == seq![head@] + split_str(tail@, p@));
                    assert(str_views(out@) + split_str(tail@, p@) =~= str_views(before) + split_str(
                        rest@,
                        p@,
                    ));
                }
                rest = tail;
            },
            None => {
                let ghost before = out@;
                out.push(rest);
                proof {
                    assert(str_views(out@) =~= str_views(before).push(rest@));
                    assert(split_str(rest@, p@) == seq![rest@]);
                    assert(str_views(out@) =~= str_views(before) + split_str(rest@, p@));
                }
                return out;
            },
        }
    }
}


/// Whether the bytes `needle` occur in `hay`.
pub fn bytes_contain(hay: &[u8], needle: &[u8]) -> (r: bool)
    ensures
        r == crate::clipboard_backend::contains_bytes(hay@, needle@),
{
    let hay_len = hay.len();
    if needle.len() > hay_len {
        return false;
    }
    let mut i: usize = 0;
    while i <= hay_len - needle.len()
        invariant
            hay_len == hay@.len(),
            needle@.len() <= hay@.len(),
            i <= hay@.len() - needle@.len() + 1,
            forall|k: int| 0 <= k < i ==> #[trigger] hay@.subrange(k, k + needle@.len()) != needle@,
        decreases hay@.len() - i,
    {
        let mut j: usize = 0;
        let mut same = true;
        while j < needle.len()
            invariant
                hay_len == hay@.len(),
                i + needle@.len() <= hay@.len(),
                j <= needle@.len(),
                same == forall|m: int| 0 <= m < j ==> hay@[i + m] == needle@[m],
            decreases needle@.len() - j,
        {
            let at: usize = i + j;
            if hay[at] != needle[j] {
                same = false;
            }
            j = j + 1;
        }
        if same {
            assert(hay@.subrange(i as int, i + needle@.len()) =~= needle@);
            return true;
        }
        proof {
            let m = choose|m: int| 0 <= m < needle@.len() && hay@[i + m] != needle@[m];
            assert(hay@.subrange(i as int, i + needle@.len())[m] != needle@[m]);
        }
        i = i + 1;
    }
    proof {
        assert forall|k: int|
            0 <= k && k + needle@.len() <= hay@.len() implies #[trigger] hay@.subrange(
            k,
            k + needle@.len(),
        ) != needle@ by {
            assert(k < i);
        }
    }
    false
}

} // verus!
