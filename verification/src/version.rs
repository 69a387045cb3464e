use std::cmp::Ordering;

use vstd::prelude::*;

use crate::screen_size::trim_start_of;
use crate::text::{spec_trim, trim};
use crate::tokens::{parse_u64, spec_parse_unsigned, split_char, split_on};
use crate::lines::str_views;

verus! {

/// A version without white space around it and without leading `v`s.
pub open spec fn spec_normalize_version(v: Seq<char>) -> Seq<char> {
    trim_start_of(spec_trim(v), 'v', 'v')
}

/// A version text without white space around it and without leading `v`s.
pub fn normalize_version(version: &str) -> (r: String)
    ensures
        r@ == spec_normalize_version(version@),
{
    let t = trim(version);
    let n = t.unicode_len();
    let mut start: usize = 0;
    assert(t@.subrange(0, n as int) =~= t@);
    while start < n && t.get_char(start) == 'v'
        invariant
            n == t@.len(),
            start <= n,
            trim_start_of(t@, 'v', 'v') == trim_start_of(t@.subrange(start as int, n as int), 'v', 'v'),
        decreases n - start,
    {
        assert(t@.subrange(start as int, n as int).drop_first() =~= t@.subrange(start + 1, n as int));
        start = start + 1;
    }
    String::from_str(t.substring_char(start, n))
}

/// The ASCII digits a text starts with.
pub open spec fn leading_digits(s: Seq<char>) -> Seq<char>
    decreases s.len(),
{
    if s.len() > 0 && '0' <= s[0] && s[0] <= '9' {
        seq![s[0]] + leading_digits(s.drop_first())
    } else {
        seq![]
    }
}

/// The number a part of a version starts with; zero when it starts with
/// none or the number does not fit in 64 bits.
pub open spec fn part_value(p: Seq<char>) -> u64 {
    match spec_parse_unsigned(leading_digits(p), 10, 0xffff_ffff_ffff_ffff) {
        Some(v) => v as u64,
        None => 0,
    }
}

/// The first three dot-separated parts of a normalized version as numbers;
/// missing parts are zero.
pub open spec fn spec_version_parts(v: Seq<char>) -> Seq<u64> {
    let p = split_on(spec_normalize_version(v), '.');
    seq![
        if p.len() > 0 { part_value(p[0]) } else { 0 },
        if p.len() > 1 { part_value(p[1]) } else { 0 },
        if p.len() > 2 { part_value(p[2]) } else { 0 },
    ]
}

fn part_of(p: &str) -> (r: u64)
    ensures
        r == part_value(p@),
{
    let n = p.unicode_len();
    let mut end: usize = 0;
    assert(p@.subrange(0, n as int) =~= p@);
    assert(p@.subrange(0, 0) + leading_digits(p@) =~= leading_digits(p@));
    while end < n && '0' <= p.get_char(end) && p.get_char(end) <= '9'
        invariant
            n == p@.len(),
            end <= n,
            leading_digits(p@) == p@.subrange(0, end as int) + leading_digits(p@.subrange(end as int, n as int)),
        decreases n - end,
    {
        let ghost rest = p@.subrange(end as int, n as int);
        assert(rest.drop_first() =~= p@.subrange(end + 1, n as int));
        assert(p@.subrange(0, end + 1) =~= p@.subrange(0, end as int) + seq![rest[0]]);
        end = end + 1;
    }
    assert(p@.subrange(0, end as int) + leading_digits(p@.subrange(end as int, n as int)) =~= p@.subrange(0, end as int));
    match parse_u64(p.substring_char(0, end)) {
        Some(v) => v,
        None => 0,
    }
}

/// The first three parts of a version as numbers.
pub fn version_parts(version: &str) -> (r: [u64; 3])
    ensures
        r@ == spec_version_parts(version@),
{
    let normalized = normalize_version(version);
    let pieces = split_char(normalized.as_str(), '.');
    proof {
        crate::tokens::lemma_split_on_nonempty(normalized@, '.');
    }
    let a = if pieces.len() > 0 { part_of(pieces[0]) } else { 0 };
    let b = if pieces.len() > 1 { part_of(pieces[1]) } else { 0 };
    let c = if pieces.len() > 2 { part_of(pieces[2]) } else { 0 };
    proof {
        if pieces@.len() > 0 { assert(str_views(pieces@)[0] == pieces@[0]@); }
        if pieces@.len() > 1 { assert(str_views(pieces@)[1] == pieces@[1]@); }
        if pieces@.len() > 2 { assert(str_views(pieces@)[2] == pieces@[2]@); }
    }
    let r = [a, b, c];
    assert(r@ =~= spec_version_parts(version@));
    r
}

/// How two versions compare: part by part, the first that differs decides.
pub open spec fn version_order(left: Seq<char>, right: Seq<char>) -> Ordering {
    let l = spec_version_parts(left);
    let r = spec_version_parts(right);
    if l[0] != r[0] {
        if l[0] < r[0] { Ordering::Less } else { Ordering::Greater }
    } else if l[1] != r[1] {
        if l[1] < r[1] { Ordering::Less } else { Ordering::Greater }
    } else if l[2] != r[2] {
        if l[2] < r[2] { Ordering::Less } else { Ordering::Greater }
    } else {
        Ordering::Equal
    }
}

/// How two versions compare.
pub fn compare_versions(left: &str, right: &str) -> (r: Ordering)
    ensures
        r == version_order(left@, right@),
{
    let l = version_parts(left);
    let r = version_parts(right);
    let mut i: usize = 0;
    while i < 3
        invariant
            i <= 3,
            l@ == spec_version_parts(left@),
            r@ == spec_version_parts(right@),
            forall|j: int| 0 <= j < i ==> l@[j] == r@[j],
        decreases 3 - i,
    {
        if l[i] < r[i] {
            return Ordering::Less;
        }
        if l[i] > r[i] {
            return Ordering::Greater;
        }
        i = i + 1;
    }
    Ordering::Equal
}

} // verus!
