use vstd::prelude::*;
use vstd::utf8::{decode_utf8, valid_utf8};

use crate::lines::{str_views, string_views};
use crate::protocol::{ClipboardModel, ClipboardPayload};
use crate::text::{string_from_utf8, string_from_utf8_lossy};
use crate::tokens::{lemma_split_on_nonempty, split_char, split_on};
use crate::uri_list::join_lines;

verus! {

/// The macOS clipboard is read only when the pasteboard's change count
/// moved since the last read.
pub struct MacClipboardState {
    pub last_change_count: Option<i64>,
}

impl MacClipboardState {
    pub fn new() -> (r: MacClipboardState)
        ensures
            r.last_change_count is None,
    {
        MacClipboardState { last_change_count: None }
    }

    /// Notes the pasteboard's change count (none when it cannot be read);
    /// whether the clipboard is to be read: not when the count is the one
    /// seen last time.
    pub fn observe_change_count(&mut self, count: Option<i64>) -> (r: bool)
        ensures
            (count is Some && old(self).last_change_count == count) ==> !r && *final(self) == *old(self),
            !(count is Some && old(self).last_change_count == count) ==> r && final(self).last_change_count == count,
    {
        match count {
            Some(c) => {
                if self.last_change_count == Some(c) {
                    return false;
                }
                self.last_change_count = Some(c);
                true
            },
            None => {
                self.last_change_count = None;
                true
            },
        }
    }
}

/// The text with each CRLF pair and each lone CR made a line feed.
pub open spec fn newlines_to_lf(s: Seq<char>) -> Seq<char>
    decreases s.len(),
{
    if s.len() == 0 {
        seq![]
    } else if s[0] == '\r' && s.len() > 1 && s[1] == '\n' {
        seq!['\n'] + newlines_to_lf(s.skip(2))
    } else if s[0] == '\r' {
        seq!['\n'] + newlines_to_lf(s.drop_first())
    } else {
        seq![s[0]] + newlines_to_lf(s.drop_first())
    }
}

/// The text with line feeds for its line ends.
pub fn normalize_newlines(text: &str) -> (r: String)
    ensures
        r@ == newlines_to_lf(text@),
{
    let n = text.unicode_len();
    let mut out = String::new();
    let mut i: usize = 0;
    assert(text@.skip(0) =~= text@);
    while i < n
        invariant
            n == text@.len(),
            i <= n,
            out@ + newlines_to_lf(text@.skip(i as int)) == newlines_to_lf(text@),
        decreases n - i,
    {
        let ghost rest = text@.skip(i as int);
        let c = text.get_char(i);
        assert(rest[0] == c);
        if c == '\r' && i + 1 < n && text.get_char(i + 1) == '\n' {
            assert(rest[1] == text@[i + 1]);
            assert(rest.skip(2) =~= text@.skip(i + 2));
            out.append("\n");
            proof {
                reveal_strlit("\n");
            }
            assert(out@ + newlines_to_lf(text@.skip(i + 2)) =~= newlines_to_lf(text@));
            i = i + 2;
        } else if c == '\r' {
            assert(rest.drop_first() =~= text@.skip(i + 1));
            out.append("\n");
            proof {
                reveal_strlit("\n");
            }
            assert(out@ + newlines_to_lf(text@.skip(i + 1)) =~= newlines_to_lf(text@));
            i = i + 1;
        } else {
            assert(rest.drop_first() =~= text@.skip(i + 1));
            let one = text.substring_char(i, i + 1);
            assert(one@ =~= seq![c]);
            out.append(one);
            assert(out@ + newlines_to_lf(text@.skip(i + 1)) =~= newlines_to_lf(text@));
            i = i + 1;
        }
    }
    assert(text@.skip(n as int) =~= Seq::<char>::empty());
    assert(out@ + Seq::<char>::empty() =~= out@);
    out
}

/// Text the clipboard helper wrote that is no UTF-8.
#[derive(Debug, Clone, Copy, PartialEq, Eq, Structural)]
pub struct InvalidUtf8;

/// The clipboard text from what the helper wrote: nothing when it wrote
/// nothing, an error when it is no UTF-8, the text with line feeds for its
/// line ends otherwise.
pub fn text_from_output(bytes: &[u8]) -> (r: Result<Option<String>, InvalidUtf8>)
    ensures
        bytes@.len() == 0 ==> r == Ok::<Option<String>, InvalidUtf8>(None),
        bytes@.len() > 0 && !valid_utf8(bytes@) ==> r == Err::<Option<String>, InvalidUtf8>(InvalidUtf8),
        bytes@.len() > 0 && valid_utf8(bytes@) ==> (r matches Ok(Some(t)) && t@ == newlines_to_lf(
            decode_utf8(bytes@),
        )),
{
    if bytes.len() == 0 {
        return Ok(None);
    }
    match string_from_utf8(bytes) {
        Some(text) => Ok(Some(normalize_newlines(text.as_str()))),
        None => Err(InvalidUtf8),
    }
}

/// A line without the carriage return that ends it, if any.
pub open spec fn strip_cr(line: Seq<char>) -> Seq<char> {
    if line.len() > 0 && line.last() == '\r' {
        line.drop_last()
    } else {
        line
    }
}

/// The lines of a text as `str::lines` gives them: split at line feeds,
/// each without a carriage return at its end, and no empty line after a
/// final line feed.
pub open spec fn std_lines(s: Seq<char>) -> Seq<Seq<char>> {
    let pieces = split_on(s, '\n');
    let kept = if pieces.last().len() == 0 {
        pieces.drop_last()
    } else {
        pieces
    };
    kept.map_values(|l: Seq<char>| strip_cr(l))
}

/// The lines the clipboard helper wrote, one path each.
pub fn output_lines(text: &str) -> (r: Vec<String>)
    ensures
        string_views(r@) == std_lines(text@),
{
    let pieces = split_char(text, '\n');
    proof {
        lemma_split_on_nonempty(text@, '\n');
    }
    let ghost pv = str_views(pieces@);
    let last = pieces.len() - 1;
    assert(pv[last as int] == pieces@[last as int]@);
    let count: usize = if pieces[last].unicode_len() == 0 {
        last
    } else {
        pieces.len()
    };
    let ghost kept = if pv.last().len() == 0 {
        pv.drop_last()
    } else {
        pv
    };
    assert(kept.len() == count);
    let mut out: Vec<String> = Vec::new();
    let mut k: usize = 0;
    while k < count
        invariant
            pv == str_views(pieces@),
            pv == split_on(text@, '\n'),
            kept.len() == count,
            count <= pieces@.len(),
            forall|j: int| 0 <= j < count ==> kept[j] == pv[j],
            k <= count,
            string_views(out@) == kept.take(k as int).map_values(|l: Seq<char>| strip_cr(l)),
        decreases count - k,
    {
        let piece = pieces[k];
        assert(pv[k as int] == piece@);
        let m = piece.unicode_len();
        let line: &str = if m > 0 && piece.get_char(m - 1) == '\r' {
            let l = piece.substring_char(0, m - 1);
            assert(l@ =~= piece@.drop_last());
            l
        } else {
            piece
        };
        let ghost before = out@;
        out.push(String::from_str(line));
        assert(kept.take(k + 1) =~= kept.take(k as int).push(kept[k as int]));
        assert(string_views(out@) =~= string_views(before).push(line@));
        assert(string_views(out@) =~= kept.take(k + 1).map_values(|l: Seq<char>| strip_cr(l)));
        k = k + 1;
    }
    assert(kept.take(count as int) =~= kept);
    out
}

/// The paths the clipboard helper wrote, one per line.
pub fn paths_from_output(bytes: &[u8]) -> (r: Vec<String>)
    ensures
        string_views(r@) == std_lines(crate::text::decode_lossy(bytes@)),
{
    let text = string_from_utf8_lossy(bytes);
    output_lines(text.as_str())
}

/// Paths joined with line feeds, as the helper that writes files reads them.
pub fn join_paths(files: &[String]) -> (r: String)
    ensures
        r@ == join_lines(string_views(files@)),
{
    let mut out = String::new();
    let mut k: usize = 0;
    while k < files.len()
        invariant
            k <= files@.len(),
            out@ == join_lines(string_views(files@.take(k as int))),
        decreases files@.len() - k,
    {
        assert(string_views(files@.take(k + 1)).drop_last() =~= string_views(files@.take(k as int)));
        assert(string_views(files@.take(k + 1)).last() == files@[k as int]@);
        if k > 0 {
            out.append("\n");
            proof {
                reveal_strlit("\n");
            }
        }
        out.append(files[k].as_str());
        proof {
            if k == 0 {
                assert(out@ =~= join_lines(string_views(files@.take(k + 1))));
            } else {
                assert(out@ =~= join_lines(string_views(files@.take(k + 1))));
            }
        }
        k = k + 1;
    }
    assert(files@.take(k as int) =~= files@);
    out
}

/// What is read from the macOS clipboard, by precedence: a file list;
/// nothing when file markers are there without readable files; text;
/// an image.
pub open spec fn spec_mac_payload(
    files: Option<Seq<Seq<char>>>,
    file_markers: bool,
    text: Option<Seq<char>>,
    bitmap: Option<Seq<u8>>,
) -> Option<ClipboardModel> {
    match files {
        Some(f) => Some(ClipboardModel::Files(f)),
        None => if file_markers {
            None
        } else {
            match text {
                Some(t) => Some(ClipboardModel::Text(t)),
                None => match bitmap {
                    Some(b) => Some(ClipboardModel::Bitmap(b)),
                    None => None,
                },
            }
        },
    }
}

/// The payload read from the macOS clipboard, from what each read gave.
pub fn mac_payload(
    files: Option<Vec<String>>,
    file_markers: bool,
    text: Option<String>,
    bitmap: Option<Vec<u8>>,
) -> (r: Option<ClipboardPayload>)
    ensures
        ({
            let s = spec_mac_payload(
                match files {
                    Some(f) => Some(string_views(f@)),
                    None => None,
                },
                file_markers,
                match text {
                    Some(t) => Some(t@),
                    None => None,
                },
                match bitmap {
                    Some(b) => Some(b@),
                    None => None,
                },
            );
            match r {
                Some(p) => s == Some(p@),
                None => s is None,
            }
        }),
{
    if let Some(f) = files {
        return Some(ClipboardPayload::Files(f));
    }
    if file_markers {
        return None;
    }
    if let Some(t) = text {
        return Some(ClipboardPayload::Text(t));
    }
    if let Some(b) = bitmap {
        return Some(ClipboardPayload::Bitmap(b));
    }
    None
}

proof fn lemma_newlines_prefix(s: Seq<char>)
    ensures
        newlines_to_lf(s).len() <= s.len(),
        !newlines_to_lf(s).contains('\r'),
        newlines_to_lf(newlines_to_lf(s)) == newlines_to_lf(s),
    decreases s.len(),
{
    if s.len() > 0 {
        let head: char = if s[0] == '\r' { '\n' } else { s[0] };
        let rest = if s[0] == '\r' && s.len() > 1 && s[1] == '\n' { s.skip(2) } else { s.drop_first() };
        lemma_newlines_prefix(rest);
        let t = newlines_to_lf(rest);
        assert(newlines_to_lf(s) == seq![head] + t);
        let n = seq![head] + t;
        assert(n[0] == head);
        assert(n.drop_first() =~= t);
        assert(!n.contains('\r')) by {
            if n.contains('\r') {
                let i = choose|i: int| 0 <= i < n.len() && n[i] == '\r';
                if i > 0 {
                    assert(t[i - 1] == '\r');
                }
            }
        }
        if head == '\n' {
            assert(newlines_to_lf(n) == seq![head] + newlines_to_lf(n.drop_first()));
        } else {
            assert(newlines_to_lf(n) == seq![head] + newlines_to_lf(n.drop_first()));
        }
    }
}

/// Line ends come out as line feeds only: no carriage return is left, and
/// normalizing the result again changes nothing.
pub proof fn law_newlines_normalized(s: Seq<char>)
    ensures
        !newlines_to_lf(s).contains('\r'),
        newlines_to_lf(newlines_to_lf(s)) == newlines_to_lf(s),
{
    lemma_newlines_prefix(s);
}

} // verus!
