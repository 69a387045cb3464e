use vstd::prelude::*;

use crate::clipboard_backend::{crlf, spec_files_to_uri_list, uri_lines_bytes};
use crate::file_uri::{
    file_scheme, has_prefix, law_file_uri_roundtrip, localhost_name, spec_path_to_file_uri,
    spec_percent_encode, uri_decodable,
};
use crate::lines::{lemma_segments_nonempty, nonempty_trimmed, segments, spec_trimmed_lines};
use crate::text::{lemma_utf8_ascii, lemma_utf8_concat, lemma_utf8_roundtrip, spec_is_whitespace, spec_trim, spec_trim_end, spec_trim_start, utf8};
use crate::uri_list::{
    all_uri_decodable, copy_word, eq_ignore_ascii_case, gnome_file_lines, is_comment, join_lines,
    spec_gnome_copied_files, spec_parse_gnome_copied_files, spec_parse_uri_list, uncommented, uri_paths,
};

verus! {

/// A printable ASCII byte other than the space.
pub open spec fn printable(b: u8) -> bool {
    0x21 <= b <= 0x7e
}

proof fn lemma_encode_printable(b: Seq<u8>)
    ensures
        forall|i: int| 0 <= i < spec_percent_encode(b).len() ==> printable(#[trigger] spec_percent_encode(b)[i]),
    decreases b.len(),
{
    if b.len() > 0 {
        lemma_encode_printable(b.drop_first());
        let x = b[0];
        let hi: u8 = x / 16;
        let lo: u8 = x % 16;
        assert(hi < 16 && lo < 16);
        let head = if crate::file_uri::is_uri_safe(x) {
            seq![x]
        } else {
            seq![0x25u8, crate::file_uri::hex_digit(hi), crate::file_uri::hex_digit(lo)]
        };
        let e = spec_percent_encode(b);
        let rest = spec_percent_encode(b.drop_first());
        assert(e == head + rest);
        assert forall|i: int| 0 <= i < e.len() implies printable(#[trigger] e[i]) by {
            if i >= head.len() {
                assert(e[i] == rest[i - head.len()]);
            }
        }
    }
}

/// The characters of a path's file URI.
pub open spec fn uri_chars(p: Seq<char>) -> Seq<char> {
    spec_path_to_file_uri(p).map_values(|x: u8| x as char)
}

proof fn lemma_uri_chars(p: Seq<char>)
    ensures
        utf8(uri_chars(p)) == spec_path_to_file_uri(p),
        uri_chars(p).len() >= 7,
        uri_chars(p)[0] == 'f',
        forall|i: int| 0 <= i < uri_chars(p).len() ==> 0x21 <= (#[trigger] uri_chars(p)[i]) as int <= 0x7e,
{
    let e = spec_percent_encode(utf8(p));
    let bytes = spec_path_to_file_uri(p);
    assert(bytes == file_scheme() + e);
    lemma_encode_printable(utf8(p));
    assert forall|i: int| 0 <= i < bytes.len() implies printable(#[trigger] bytes[i]) by {
        if i >= 7 {
            assert(bytes[i] == e[i - 7]);
        }
    }
    let u = uri_chars(p);
    assert forall|i: int| 0 <= i < u.len() implies '\0' <= #[trigger] u[i] <= '\u{7f}' by {
        assert(printable(bytes[i]));
    }
    lemma_utf8_ascii(u);
    assert(u.map_values(|c: char| c as u8) =~= bytes) by {
        assert forall|i: int| 0 <= i < bytes.len() implies u.map_values(|c: char| c as u8)[i] == bytes[i] by {
            assert(printable(bytes[i]));
            let b = bytes[i];
            assert(((b as char) as u8) == b);
        }
    }
}

/// The characters of a `text/uri-list` for these paths, each URI followed
/// by CR LF.
pub open spec fn list_chars(paths: Seq<Seq<char>>) -> Seq<char>
    decreases paths.len(),
{
    if paths.len() == 0 {
        seq![]
    } else {
        list_chars(paths.drop_last()) + uri_chars(paths.last()) + seq!['\r', '\n']
    }
}

proof fn lemma_list_chars_utf8(paths: Seq<Seq<char>>)
    ensures
        utf8(list_chars(paths)) == uri_lines_bytes(paths),
    decreases paths.len(),
{
    if paths.len() > 0 {
        lemma_list_chars_utf8(paths.drop_last());
        let prev = list_chars(paths.drop_last());
        let u = uri_chars(paths.last());
        lemma_uri_chars(paths.last());
        let nl: Seq<char> = seq!['\r', '\n'];
        lemma_utf8_ascii(nl);
        assert(utf8(nl) =~= crlf());
        lemma_utf8_concat(prev, u);
        lemma_utf8_concat(prev + u, nl);
    }
}

proof fn lemma_segments_line(s: Seq<char>, w: Seq<char>)
    requires
        forall|i: int| 0 <= i < w.len() ==> w[i] != '\n',
    ensures
        segments(s + w).len() == segments(s).len(),
        segments(s + w) == segments(s).update(segments(s).len() - 1, segments(s).last() + w),
    decreases w.len(),
{
    lemma_segments_nonempty(s);
    if w.len() == 0 {
        assert(s + w =~= s);
        assert(segments(s).last() + w =~= segments(s).last());
        assert(segments(s).update(segments(s).len() - 1, segments(s).last() + w) =~= segments(s));
    } else {
        let w0 = w.drop_last();
        lemma_segments_line(s, w0);
        assert((s + w).drop_last() =~= s + w0);
        assert((s + w).last() == w.last());
        let prev = segments(s + w0);
        assert(prev.last() == segments(s).last() + w0);
        assert(prev.last().push(w.last()) =~= segments(s).last() + w);
        assert(segments(s + w) =~= segments(s).update(segments(s).len() - 1, segments(s).last() + w));
    }
}

/// The pieces of a URI list between its line feeds, but the empty last one.
pub open spec fn list_pieces(paths: Seq<Seq<char>>) -> Seq<Seq<char>> {
    paths.map_values(|p: Seq<char>| uri_chars(p).push('\r'))
}

proof fn lemma_list_segments(paths: Seq<Seq<char>>)
    ensures
        segments(list_chars(paths)) == list_pieces(paths).push(Seq::<char>::empty()),
    decreases paths.len(),
{
    if paths.len() == 0 {
        assert(list_pieces(paths).push(Seq::<char>::empty()) =~= seq![Seq::<char>::empty()]);
    } else {
        let prev = paths.drop_last();
        lemma_list_segments(prev);
        let l = list_chars(prev);
        let w = uri_chars(paths.last()).push('\r');
        lemma_uri_chars(paths.last());
        assert forall|i: int| 0 <= i < w.len() implies w[i] != '\n' by {
            if i < w.len() - 1 {
                assert(w[i] == uri_chars(paths.last())[i]);
            }
        }
        lemma_segments_line(l, w);
        assert(segments(l).last() =~= Seq::<char>::empty());
        assert(Seq::<char>::empty() + w =~= w);
        let s1 = l + w;
        assert(segments(s1) =~= list_pieces(prev).push(w));
        assert(list_chars(paths) =~= s1.push('\n'));
        assert(s1.push('\n').drop_last() =~= s1);
        assert(list_pieces(paths) =~= list_pieces(prev).push(w));
    }
}

proof fn lemma_printable_not_whitespace(c: char)
    requires
        0x21 <= c as int <= 0x7e,
    ensures
        !spec_is_whitespace(c),
{
}

proof fn lemma_trim_uri_line(p: Seq<char>)
    ensures
        spec_trim(uri_chars(p).push('\r')) == uri_chars(p),
{
    let u = uri_chars(p);
    lemma_uri_chars(p);
    let x = u.push('\r');
    lemma_printable_not_whitespace(u[0]);
    assert(x[0] == u[0]);
    assert(spec_trim_start(x) == x);
    assert(x.drop_last() =~= u);
    lemma_printable_not_whitespace(u.last());
    assert(spec_trim_end(u) == u);
    assert(spec_trim_end(x) == u);
}

/// The URI lines of a list, trimmed.
pub open spec fn uri_lines(paths: Seq<Seq<char>>) -> Seq<Seq<char>> {
    paths.map_values(|p: Seq<char>| uri_chars(p))
}

proof fn lemma_trimmed_pieces(paths: Seq<Seq<char>>)
    ensures
        nonempty_trimmed(list_pieces(paths)) == uri_lines(paths),
    decreases paths.len(),
{
    if paths.len() > 0 {
        let prev = paths.drop_last();
        lemma_trimmed_pieces(prev);
        assert(list_pieces(paths).drop_last() =~= list_pieces(prev));
        assert(list_pieces(paths).last() == uri_chars(paths.last()).push('\r'));
        lemma_trim_uri_line(paths.last());
        lemma_uri_chars(paths.last());
        assert(uri_lines(paths) =~= uri_lines(prev).push(uri_chars(paths.last())));
    } else {
        assert(uri_lines(paths) =~= Seq::<Seq<char>>::empty());
    }
}

proof fn lemma_uncommented_uri_lines(paths: Seq<Seq<char>>)
    ensures
        uncommented(uri_lines(paths)) == uri_lines(paths),
    decreases paths.len(),
{
    if paths.len() > 0 {
        let prev = paths.drop_last();
        lemma_uncommented_uri_lines(prev);
        assert(uri_lines(paths).drop_last() =~= uri_lines(prev));
        lemma_uri_chars(paths.last());
        assert(uri_lines(paths) =~= uri_lines(prev).push(uri_chars(paths.last())));
    }
}

proof fn lemma_uri_paths_back(paths: Seq<Seq<char>>)
    requires
        forall|i: int| 0 <= i < paths.len() ==> !has_prefix(utf8(#[trigger] paths[i]), localhost_name()),
    ensures
        uri_paths(uri_lines(paths)) == paths,
        all_uri_decodable(uri_lines(paths)),
    decreases paths.len(),
{
    if paths.len() > 0 {
        let prev = paths.drop_last();
        assert forall|i: int| 0 <= i < prev.len() implies !has_prefix(utf8(#[trigger] prev[i]), localhost_name()) by {
            assert(prev[i] == paths[i]);
        }
        lemma_uri_paths_back(prev);
        assert(uri_lines(paths).drop_last() =~= uri_lines(prev));
        let p = paths.last();
        assert(p == paths[paths.len() - 1]);
        lemma_uri_chars(p);
        law_file_uri_roundtrip(p, uri_chars(p));
        assert(uri_lines(paths).last() == uri_chars(p));
        assert(paths =~= prev.push(p));
        assert forall|i: int| 0 <= i < uri_lines(paths).len() implies uri_decodable(#[trigger] uri_lines(paths)[i]) by {
            if i < prev.len() {
                assert(uri_lines(paths)[i] == uri_lines(prev)[i]);
            }
        }
    }
}

/// A list of paths written as a `text/uri-list` reads back as the same
/// list, every path decodable, as long as no path starts with `localhost`
/// (such a URI reads as one that names the local host).
pub proof fn law_uri_list_roundtrip(paths: Seq<Seq<char>>, text: Seq<char>)
    requires
        utf8(text) == spec_files_to_uri_list(paths),
        forall|i: int| 0 <= i < paths.len() ==> !has_prefix(utf8(#[trigger] paths[i]), localhost_name()),
    ensures
        all_uri_decodable(uncommented(spec_trimmed_lines(text))),
        spec_parse_uri_list(text) == paths,
{
    lemma_utf8_roundtrip(text);
    if paths.len() == 0 {
        let nl: Seq<char> = seq!['\r', '\n'];
        lemma_utf8_ascii(nl);
        assert(utf8(nl) =~= crlf());
        lemma_utf8_roundtrip(nl);
        assert(text == nl);
        let cr: Seq<char> = seq!['\r'];
        lemma_segments_line(Seq::<char>::empty(), cr);
        assert(Seq::<char>::empty() + cr =~= cr);
        assert(segments(Seq::<char>::empty()) =~= seq![Seq::<char>::empty()]);
        assert(segments(cr) =~= seq![cr]);
        assert(nl =~= cr.push('\n'));
        assert(cr.push('\n').drop_last() =~= cr);
        assert(segments(nl) =~= seq![cr, Seq::<char>::empty()]);
        assert(spec_is_whitespace(cr[0]));
        assert(cr.drop_first() =~= Seq::<char>::empty());
        assert(spec_trim_start(Seq::<char>::empty()) =~= Seq::<char>::empty());
        assert(spec_trim_start(cr) =~= Seq::<char>::empty());
        assert(spec_trim_end(Seq::<char>::empty()) =~= Seq::<char>::empty());
        assert(spec_trim(cr).len() == 0);
        assert(seq![cr, Seq::<char>::empty()].drop_last() =~= seq![cr]);
        assert(seq![cr].drop_last() =~= Seq::<Seq<char>>::empty());
        assert(nonempty_trimmed(Seq::<Seq<char>>::empty()) =~= Seq::<Seq<char>>::empty());
        assert(nonempty_trimmed(seq![cr]) =~= Seq::<Seq<char>>::empty());
        assert(nonempty_trimmed(seq![cr, Seq::<char>::empty()]) =~= Seq::<Seq<char>>::empty());
        assert(spec_trimmed_lines(text) == nonempty_trimmed(segments(nl)));
        assert(spec_trimmed_lines(text) =~= Seq::<Seq<char>>::empty());
    } else {
        lemma_list_chars_utf8(paths);
        lemma_utf8_roundtrip(list_chars(paths));
        assert(text == list_chars(paths));
        lemma_list_segments(paths);
        let pieces = list_pieces(paths);
        assert(pieces.push(Seq::<char>::empty()).drop_last() =~= pieces);
        assert(spec_trim(Seq::<char>::empty()) =~= Seq::<char>::empty());
        lemma_trimmed_pieces(paths);
        assert(spec_trimmed_lines(text) == uri_lines(paths));
        lemma_uncommented_uri_lines(paths);
        lemma_uri_paths_back(paths);
    }
}

proof fn lemma_trim_start_shape(s: Seq<char>)
    ensures
        exists|k: int| 0 <= k <= s.len() && #[trigger] s.skip(k) == spec_trim_start(s),
        spec_trim_start(s).len() == 0 || !spec_is_whitespace(spec_trim_start(s)[0]),
    decreases s.len(),
{
    if s.len() > 0 && spec_is_whitespace(s[0]) {
        lemma_trim_start_shape(s.drop_first());
        let k = choose|k: int| 0 <= k <= s.drop_first().len() && #[trigger] s.drop_first().skip(k) == spec_trim_start(
            s.drop_first(),
        );
        assert(s.skip(k + 1) =~= s.drop_first().skip(k));
    } else {
        assert(s.skip(0) =~= s);
    }
}

proof fn lemma_trim_end_shape(s: Seq<char>)
    ensures
        exists|k: int| 0 <= k <= s.len() && #[trigger] s.take(k) == spec_trim_end(s),
        spec_trim_end(s).len() == 0 || !spec_is_whitespace(spec_trim_end(s).last()),
    decreases s.len(),
{
    if s.len() > 0 && spec_is_whitespace(s.last()) {
        lemma_trim_end_shape(s.drop_last());
        let k = choose|k: int| 0 <= k <= s.drop_last().len() && #[trigger] s.drop_last().take(k) == spec_trim_end(
            s.drop_last(),
        );
        assert(s.take(k) =~= s.drop_last().take(k));
    } else {
        assert(s.take(s.len() as int) =~= s);
    }
}

/// Trimmed text is left as it is by trimming, and holds no character that
/// the text did not.
proof fn lemma_trim_settles(s: Seq<char>, c: char)
    ensures
        spec_trim(spec_trim(s)) == spec_trim(s),
        !s.contains(c) ==> !spec_trim(s).contains(c),
{
    let x = spec_trim_start(s);
    let t = spec_trim_end(x);
    lemma_trim_start_shape(s);
    lemma_trim_end_shape(x);
    let a = choose|k: int| 0 <= k <= s.len() && #[trigger] s.skip(k) == x;
    let b = choose|k: int| 0 <= k <= x.len() && #[trigger] x.take(k) == t;
    if t.len() > 0 {
        assert(t[0] == x[0]);
        assert(spec_trim_start(t) == t);
        lemma_trim_end_shape(t);
        assert(spec_trim_end(t) == t);
    } else {
        assert(spec_trim_start(t) == t);
    }
    if !s.contains(c) && t.contains(c) {
        let i = choose|i: int| 0 <= i < t.len() && t[i] == c;
        assert(t[i] == x[i]);
        assert(x[i] == s[i + a]);
    }
}

proof fn lemma_segments_no_newline(s: Seq<char>)
    ensures
        forall|i: int| 0 <= i < segments(s).len() ==> !(#[trigger] segments(s)[i]).contains('\n'),
    decreases s.len(),
{
    if s.len() > 0 {
        let prev = segments(s.drop_last());
        lemma_segments_no_newline(s.drop_last());
        lemma_segments_nonempty(s.drop_last());
        if s.last() != '\n' {
            let w = prev.last().push(s.last());
            assert(!w.contains('\n')) by {
                if w.contains('\n') {
                    let j = choose|j: int| 0 <= j < w.len() && w[j] == '\n';
                    if j < w.len() - 1 {
                        assert(w[j] == prev.last()[j]);
                        assert(prev.last() == prev[prev.len() - 1]);
                    }
                }
            }
            assert forall|i: int| 0 <= i < segments(s).len() implies !(#[trigger] segments(s)[i]).contains('\n') by {
                if i < prev.len() - 1 {
                    assert(segments(s)[i] == prev[i]);
                }
            }
        } else {
            assert forall|i: int| 0 <= i < segments(s).len() implies !(#[trigger] segments(s)[i]).contains('\n') by {
                if i < prev.len() {
                    assert(segments(s)[i] == prev[i]);
                } else {
                    assert(segments(s)[i] =~= Seq::<char>::empty());
                }
            }
        }
    }
}

/// A line as the line readers keep it: not empty, trimmed, one line.
pub open spec fn settled_line(l: Seq<char>) -> bool {
    &&& l.len() > 0
    &&& spec_trim(l) == l
    &&& !l.contains('\n')
}

proof fn lemma_nonempty_trimmed_settled(pieces: Seq<Seq<char>>)
    requires
        forall|i: int| 0 <= i < pieces.len() ==> !(#[trigger] pieces[i]).contains('\n'),
    ensures
        forall|i: int| 0 <= i < nonempty_trimmed(pieces).len() ==> settled_line(#[trigger] nonempty_trimmed(pieces)[i]),
    decreases pieces.len(),
{
    if pieces.len() > 0 {
        let prev = pieces.drop_last();
        assert forall|i: int| 0 <= i < prev.len() implies !(#[trigger] prev[i]).contains('\n') by {
            assert(prev[i] == pieces[i]);
        }
        lemma_nonempty_trimmed_settled(prev);
        assert(pieces.last() == pieces[pieces.len() - 1]);
        lemma_trim_settles(pieces.last(), '\n');
        let n = nonempty_trimmed(pieces);
        let np = nonempty_trimmed(prev);
        assert forall|i: int| 0 <= i < n.len() implies settled_line(#[trigger] n[i]) by {
            if i < np.len() {
                assert(n[i] == np[i]);
            }
        }
    }
}

proof fn lemma_trimmed_lines_settled(s: Seq<char>)
    ensures
        forall|i: int| 0 <= i < spec_trimmed_lines(s).len() ==> settled_line(#[trigger] spec_trimmed_lines(s)[i]),
{
    lemma_segments_no_newline(s);
    lemma_nonempty_trimmed_settled(segments(s));
}

proof fn lemma_segments_join(p: Seq<char>, ls: Seq<Seq<char>>)
    requires
        segments(p).last() == Seq::<char>::empty(),
        ls.len() > 0,
        forall|i: int| 0 <= i < ls.len() ==> settled_line(#[trigger] ls[i]),
    ensures
        segments(p + join_lines(ls)) == segments(p).drop_last() + ls,
    decreases ls.len(),
{
    lemma_segments_nonempty(p);
    let w = ls.last();
    assert(w == ls[ls.len() - 1]);
    assert forall|i: int| 0 <= i < w.len() implies w[i] != '\n' by {
        if w[i] == '\n' {
            assert(w.contains('\n'));
        }
    }
    if ls.len() == 1 {
        assert(join_lines(ls) == ls[0]);
        lemma_segments_line(p, w);
        assert(Seq::<char>::empty() + w =~= w);
        assert(segments(p + join_lines(ls)) =~= segments(p).drop_last() + ls);
    } else {
        let prev = ls.drop_last();
        assert forall|i: int| 0 <= i < prev.len() implies settled_line(#[trigger] prev[i]) by {
            assert(prev[i] == ls[i]);
        }
        lemma_segments_join(p, prev);
        let q = p + join_lines(prev);
        let q1 = q.push('\n');
        assert(q1.drop_last() =~= q);
        assert(segments(q1) == segments(q).push(Seq::<char>::empty()));
        lemma_segments_line(q1, w);
        assert(Seq::<char>::empty() + w =~= w);
        assert(p + join_lines(ls) =~= q1 + w);
        assert(segments(p + join_lines(ls)) =~= segments(p).drop_last() + ls);
    }
}

proof fn lemma_nonempty_trimmed_settled_id(ls: Seq<Seq<char>>)
    requires
        forall|i: int| 0 <= i < ls.len() ==> settled_line(#[trigger] ls[i]),
    ensures
        nonempty_trimmed(ls) == ls,
    decreases ls.len(),
{
    if ls.len() > 0 {
        let prev = ls.drop_last();
        assert forall|i: int| 0 <= i < prev.len() implies settled_line(#[trigger] prev[i]) by {
            assert(prev[i] == ls[i]);
        }
        lemma_nonempty_trimmed_settled_id(prev);
        assert(ls.last() == ls[ls.len() - 1]);
        assert(ls =~= prev.push(ls.last()));
    }
}

proof fn lemma_uncommented_id(ls: Seq<Seq<char>>)
    requires
        forall|i: int| 0 <= i < ls.len() ==> !is_comment(#[trigger] ls[i]),
    ensures
        uncommented(ls) == ls,
    decreases ls.len(),
{
    if ls.len() > 0 {
        let prev = ls.drop_last();
        assert forall|i: int| 0 <= i < prev.len() implies !is_comment(#[trigger] prev[i]) by {
            assert(prev[i] == ls[i]);
        }
        lemma_uncommented_id(prev);
        assert(ls.last() == ls[ls.len() - 1]);
        assert(ls =~= prev.push(ls.last()));
    }
}

/// A URI list written as an `x-special/gnome-copied-files` value names the
/// same files as the list itself, as long as the list has no comment lines
/// (those are carried over as lines of the copied-files value).
pub proof fn law_gnome_files_same_as_uri_list(u: Seq<char>)
    requires
        forall|i: int| 0 <= i < spec_trimmed_lines(u).len() ==> !is_comment(#[trigger] spec_trimmed_lines(u)[i]),
    ensures
        spec_parse_gnome_copied_files(spec_gnome_copied_files(u)) == spec_parse_uri_list(u),
{
    let ls = spec_trimmed_lines(u);
    lemma_trimmed_lines_settled(u);
    lemma_uncommented_id(ls);
    let copy = seq!['c', 'o', 'p', 'y'];
    let p = copy.push('\n');
    assert(seq!['c', 'o', 'p', 'y', '\n'] =~= p);
    assert(p.drop_last() =~= copy);
    assert(segments(copy) == seq![copy]) by {
        let e = Seq::<char>::empty();
        assert forall|k: int| 0 <= k < copy.len() implies copy[k] != '\n' by {}
        lemma_segments_line(e, copy);
        assert(e + copy =~= copy);
        assert(segments(e) =~= seq![e]);
        assert(segments(e).last() + copy =~= copy);
        assert(segments(e).update(0, copy) =~= seq![copy]);
    }
    assert(segments(p) == seq![copy, Seq::<char>::empty()]);
    let g = spec_gnome_copied_files(u);
    let body = p + join_lines(ls);
    assert(g =~= body.push('\n'));
    assert(g.drop_last() =~= body);
    assert(settled_line(copy)) by {
        assert(spec_trim_start(copy) == copy);
        assert(spec_trim_end(copy) == copy);
        assert(!copy.contains('\n')) by {
            if copy.contains('\n') {
                let j = choose|j: int| 0 <= j < copy.len() && copy[j] == '\n';
            }
        }
    }
    let all = seq![copy] + ls;
    assert forall|i: int| 0 <= i < all.len() implies settled_line(#[trigger] all[i]) by {
        if i > 0 {
            assert(all[i] == ls[i - 1]);
        }
    }
    if ls.len() > 0 {
        lemma_segments_join(p, ls);
        assert(segments(p).drop_last() =~= seq![copy]);
        assert(segments(body) == all);
        lemma_nonempty_trimmed_settled_id(all);
    } else {
        assert(join_lines(ls) =~= Seq::<char>::empty());
        assert(body =~= p);
        assert(all =~= seq![copy]);
        assert(segments(body) =~= seq![copy, Seq::<char>::empty()]);
        lemma_nonempty_trimmed_settled_id(all);
        assert(segments(body).drop_last() =~= all);
        assert(spec_trim(Seq::<char>::empty()) =~= Seq::<char>::empty());
        assert(nonempty_trimmed(segments(body)) == all);
    }
    assert(segments(g) == segments(body).push(Seq::<char>::empty()));
    assert(segments(body).push(Seq::<char>::empty()).drop_last() =~= segments(body));
    assert(spec_trim(Seq::<char>::empty()) =~= Seq::<char>::empty());
    let sg = segments(body).push(Seq::<char>::empty());
    assert(sg.last() == Seq::<char>::empty());
    assert(spec_trim(sg.last()).len() == 0);
    assert(nonempty_trimmed(sg) == nonempty_trimmed(sg.drop_last()));
    assert(spec_trimmed_lines(g) == all);
    assert(vstd::utf8::is_ascii_chars(copy));
    lemma_utf8_ascii(copy);
    assert(utf8(copy) =~= copy_word());
    assert(eq_ignore_ascii_case(utf8(all[0]), copy_word()));
    assert(all.drop_first() =~= ls);
    assert(gnome_file_lines(all) == ls);
}

} // verus!
