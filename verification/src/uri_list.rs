use vstd::prelude::*;

use crate::file_uri::{file_scheme, file_uri_to_path, has_prefix, spec_file_uri_to_path, uri_decodable};
use crate::lines::{spec_trimmed_lines, str_views, string_views, trimmed_lines};
use crate::text::utf8;

verus! {

/// The paths named by those lines that are file URIs, in order.
pub open spec fn uri_paths(lines: Seq<Seq<char>>) -> Seq<Seq<char>>
    decreases lines.len(),
{
    if lines.len() == 0 {
        seq![]
    } else {
        let prev = uri_paths(lines.drop_last());
        match spec_file_uri_to_path(lines.last()) {
            Some(p) => prev.push(p),
            None => prev,
        }
    }
}

/// Whether a line is a comment of a URI list: it starts with `#`.
pub open spec fn is_comment(line: Seq<char>) -> bool {
    line.len() > 0 && line[0] == '#'
}

/// The lines that are no comments, in order.
pub open spec fn uncommented(lines: Seq<Seq<char>>) -> Seq<Seq<char>>
    decreases lines.len(),
{
    if lines.len() == 0 {
        seq![]
    } else {
        let prev = uncommented(lines.drop_last());
        if is_comment(lines.last()) {
            prev
        } else {
            prev.push(lines.last())
        }
    }
}

/// Whether every line can be read as a file URI without a cut inside a
/// character (see `decodable`).
pub open spec fn all_uri_decodable(lines: Seq<Seq<char>>) -> bool {
    forall|i: int| 0 <= i < lines.len() ==> uri_decodable(#[trigger] lines[i])
}

fn paths_of(lines: &[&str]) -> (r: Vec<String>)
    requires
        all_uri_decodable(str_views(lines@)),
    ensures
        string_views(r@) == uri_paths(str_views(lines@)),
{
    let mut out: Vec<String> = Vec::new();
    let mut k: usize = 0;
    while k < lines.len()
        invariant
            k <= lines@.len(),
            all_uri_decodable(str_views(lines@)),
            string_views(out@) == uri_paths(str_views(lines@.take(k as int))),
        decreases lines@.len() - k,
    {
        let line = lines[k];
        proof {
            assert(str_views(lines@)[k as int] == line@);
            assert(str_views(lines@.take(k + 1)).drop_last() =~= str_views(lines@.take(k as int)));
            assert(str_views(lines@.take(k + 1)).last() == line@);
        }
        let ghost before = out@;
        match file_uri_to_path(line) {
            Some(path) => {
                out.push(path);
                assert(string_views(out@) =~= string_views(before).push(path@));
            },
            None => {},
        }
        k = k + 1;
    }
    assert(lines@.take(k as int) =~= lines@);
    out
}

fn uncommented_lines<'a>(lines: &Vec<&'a str>) -> (r: Vec<&'a str>)
    ensures
        str_views(r@) == uncommented(str_views(lines@)),
{
    let mut out: Vec<&str> = Vec::new();
    let mut k: usize = 0;
    while k < lines.len()
        invariant
            k <= lines@.len(),
            str_views(out@) == uncommented(str_views(lines@.take(k as int))),
        decreases lines@.len() - k,
    {
        let line = lines[k];
        proof {
            assert(str_views(lines@.take(k + 1)).drop_last() =~= str_views(lines@.take(k as int)));
            assert(str_views(lines@.take(k + 1)).last() == line@);
        }
        let ghost before = out@;
        let comment = line.unicode_len() > 0 && line.get_char(0) == '#';
        if !comment {
            out.push(line);
            assert(str_views(out@) =~= str_views(before).push(line@));
        }
        k = k + 1;
    }
    assert(lines@.take(k as int) =~= lines@);
    out
}

/// The paths of a `text/uri-list`: each line trimmed, empty lines and
/// comments skipped, file URIs decoded, other lines left out.
pub open spec fn spec_parse_uri_list(value: Seq<char>) -> Seq<Seq<char>> {
    uri_paths(uncommented(spec_trimmed_lines(value)))
}

/// The paths of a `text/uri-list` clipboard value.
pub fn parse_uri_list(value: &str) -> (r: Vec<String>)
    requires
        all_uri_decodable(uncommented(spec_trimmed_lines(value@))),
    ensures
        string_views(r@) == spec_parse_uri_list(value@),
{
    let lines = trimmed_lines(value);
    let kept = uncommented_lines(&lines);
    paths_of(kept.as_slice())
}

/// ASCII upper-case letters made lower-case; other bytes unchanged.
pub open spec fn ascii_lower(b: u8) -> u8 {
    if 0x41 <= b <= 0x5a {
        (b + 0x20) as u8
    } else {
        b
    }
}

/// Whether two byte strings are equal once ASCII letters are lower-cased.
pub open spec fn eq_ignore_ascii_case(a: Seq<u8>, b: Seq<u8>) -> bool {
    a.len() == b.len() && forall|i: int| 0 <= i < a.len() ==> ascii_lower(#[trigger] a[i])
        == ascii_lower(b[i])
}

fn lower_byte(b: u8) -> (r: u8)
    ensures
        r == ascii_lower(b),
{
    if 0x41 <= b && b <= 0x5a {
        b + 0x20
    } else {
        b
    }
}

pub fn bytes_eq_ignore_ascii_case(a: &[u8], b: &[u8]) -> (r: bool)
    ensures
        r == eq_ignore_ascii_case(a@, b@),
{
    if a.len() != b.len() {
        return false;
    }
    let mut i: usize = 0;
    while i < a.len()
        invariant
            a@.len() == b@.len(),
            i <= a@.len(),
            forall|j: int| 0 <= j < i ==> ascii_lower(#[trigger] a@[j]) == ascii_lower(b@[j]),
        decreases a@.len() - i,
    {
        if lower_byte(a[i]) != lower_byte(b[i]) {
            return false;
        }
        i = i + 1;
    }
    true
}

/// The bytes of "copy".
pub open spec fn copy_word() -> Seq<u8> {
    seq![0x63u8, 0x6f, 0x70, 0x79]
}

/// The bytes of "cut".
pub open spec fn cut_word() -> Seq<u8> {
    seq![0x63u8, 0x75, 0x74]
}

/// The lines of an `x-special/gnome-copied-files` value that name files:
/// those after a first line `copy` or `cut` (in any case), or all of them
/// when the first line is already a file URI; none otherwise.
pub open spec fn gnome_file_lines(lines: Seq<Seq<char>>) -> Seq<Seq<char>> {
    if lines.len() == 0 {
        seq![]
    } else if eq_ignore_ascii_case(utf8(lines[0]), copy_word()) || eq_ignore_ascii_case(
        utf8(lines[0]),
        cut_word(),
    ) {
        lines.drop_first()
    } else if has_prefix(utf8(lines[0]), file_scheme()) {
        lines
    } else {
        seq![]
    }
}

pub open spec fn spec_parse_gnome_copied_files(value: Seq<char>) -> Seq<Seq<char>> {
    uri_paths(gnome_file_lines(spec_trimmed_lines(value)))
}

fn gnome_lines<'a, 'b>(lines: &'b Vec<&'a str>) -> (r: &'b [&'a str])
    ensures
        str_views(r@) == gnome_file_lines(str_views(lines@)),
{
    if lines.len() == 0 {
        return lines.as_slice();
    }
    let first = lines[0].as_bytes();
    let mut copy: Vec<u8> = Vec::new();
    copy.push(0x63);
    copy.push(0x6f);
    copy.push(0x70);
    copy.push(0x79);
    assert(copy@ =~= copy_word());
    let mut cut: Vec<u8> = Vec::new();
    cut.push(0x63);
    cut.push(0x75);
    cut.push(0x74);
    assert(cut@ =~= cut_word());
    proof {
        assert(str_views(lines@)[0] == lines@[0]@);
    }
    if bytes_eq_ignore_ascii_case(first, copy.as_slice()) || bytes_eq_ignore_ascii_case(
        first,
        cut.as_slice(),
    ) {
        let rest = vstd::slice::slice_subrange(lines.as_slice(), 1, lines.len());
        assert(str_views(rest@) =~= str_views(lines@).drop_first());
        return rest;
    }
    if crate::file_uri::starts_with_file_scheme(first) {
        return lines.as_slice();
    }
    let none = vstd::slice::slice_subrange(lines.as_slice(), 0, 0);
    assert(str_views(none@) =~= Seq::<Seq<char>>::empty());
    none
}

/// The paths of an `x-special/gnome-copied-files` clipboard value.
pub fn parse_gnome_copied_files(value: &str) -> (r: Vec<String>)
    requires
        all_uri_decodable(gnome_file_lines(spec_trimmed_lines(value@))),
    ensures
        string_views(r@) == spec_parse_gnome_copied_files(value@),
{
    let lines = trimmed_lines(value);
    paths_of(gnome_lines(&lines))
}

fn lines_decodable(lines: &[&str]) -> (r: bool)
    ensures
        r == all_uri_decodable(str_views(lines@)),
{
    let mut k: usize = 0;
    while k < lines.len()
        invariant
            k <= lines@.len(),
            forall|i: int| 0 <= i < k ==> uri_decodable(#[trigger] str_views(lines@)[i]),
        decreases lines@.len() - k,
    {
        assert(str_views(lines@)[k as int] == lines@[k as int]@);
        if !crate::file_uri::uri_is_decodable(lines[k]) {
            return false;
        }
        k = k + 1;
    }
    true
}

/// Whether every path of a `text/uri-list` value can be decoded, so that
/// `parse_uri_list` may read it.
pub fn uri_list_decodable(value: &str) -> (r: bool)
    ensures
        r == all_uri_decodable(uncommented(spec_trimmed_lines(value@))),
{
    let lines = trimmed_lines(value);
    let kept = uncommented_lines(&lines);
    lines_decodable(kept.as_slice())
}

/// Whether every path of an `x-special/gnome-copied-files` value can be
/// decoded, so that `parse_gnome_copied_files` may read it.
pub fn gnome_list_decodable(value: &str) -> (r: bool)
    ensures
        r == all_uri_decodable(gnome_file_lines(spec_trimmed_lines(value@))),
{
    let lines = trimmed_lines(value);
    lines_decodable(gnome_lines(&lines))
}

/// Lines joined with line feeds between them.
pub open spec fn join_lines(lines: Seq<Seq<char>>) -> Seq<char>
    decreases lines.len(),
{
    if lines.len() == 0 {
        seq![]
    } else if lines.len() == 1 {
        lines[0]
    } else {
        join_lines(lines.drop_last()) + seq!['\n'] + lines.last()
    }
}

/// The `x-special/gnome-copied-files` value for a URI list: `copy`, then
/// the list's non-empty lines trimmed, each line ended by a line feed.
pub open spec fn spec_gnome_copied_files(uri_list: Seq<char>) -> Seq<char> {
    seq!['c', 'o', 'p', 'y', '\n'] + join_lines(spec_trimmed_lines(uri_list)) + seq!['\n']
}

/// The `x-special/gnome-copied-files` value for a URI list.
pub fn uri_list_to_gnome_copied_files(uri_list: &str) -> (r: String)
    ensures
        r@ == spec_gnome_copied_files(uri_list@),
{
    let lines = trimmed_lines(uri_list);
    let mut body = String::new();
    let mut k: usize = 0;
    while k < lines.len()
        invariant
            k <= lines@.len(),
            body@ == join_lines(str_views(lines@.take(k as int))),
        decreases lines@.len() - k,
    {
        proof {
            reveal_strlit("\n");
            assert(str_views(lines@.take(k + 1)).drop_last() =~= str_views(lines@.take(k as int)));
            assert(str_views(lines@.take(k + 1)).last() == lines@[k as int]@);
        }
        if k > 0 {
            body.append("\n");
        }
        body.append(lines[k]);
        proof {
            if k == 0 {
                assert(body@ =~= join_lines(str_views(lines@.take(1))));
            } else {
                assert(body@ =~= join_lines(str_views(lines@.take(k + 1))));
            }
        }
        k = k + 1;
    }
    assert(lines@.take(k as int) =~= lines@);
    let mut out = String::from_str("copy\n");
    out.append(body.as_str());
    out.append("\n");
    proof {
        reveal_strlit("copy\n");
        reveal_strlit("\n");
        assert(out@ =~= spec_gnome_copied_files(uri_list@));
    }
    out
}

} // verus!
