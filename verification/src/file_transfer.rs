use vstd::prelude::*;

use crate::lines::{str_views, string_views};
use crate::text::{opt_view, str_eq};
use crate::tokens::{split_char, split_on};

verus! {

/// The most a dragged bundle of files may hold, in bytes.
pub const MAX_BUNDLE_SIZE: u64 = 536870912;

/// A path from the peer that could leave the folder files are received in.
#[derive(Debug, Clone, Copy, PartialEq, Eq, Structural)]
pub struct UnsafePath;

pub open spec fn sum_lens(lens: Seq<u64>) -> nat
    decreases lens.len(),
{
    if lens.len() == 0 {
        0
    } else {
        sum_lens(lens.drop_last()) + (lens.last() as nat)
    }
}

/// Whether a bundle of files of these lengths is small enough to send.
pub fn bundle_within_limit(lens: &[u64]) -> (r: bool)
    requires
        sum_lens(lens@) <= u64::MAX,
    ensures
        r == (sum_lens(lens@) <= MAX_BUNDLE_SIZE),
{
    let mut total: u64 = 0;
    let mut i: usize = 0;
    assert(lens@.take(0) =~= Seq::<u64>::empty());
    while i < lens.len()
        invariant
            i <= lens@.len(),
            total == sum_lens(lens@.take(i as int)),
            sum_lens(lens@) <= u64::MAX,
        decreases lens@.len() - i,
    {
        proof {
            assert(lens@.take(i + 1).drop_last() =~= lens@.take(i as int));
            lemma_sum_prefix(lens@, i + 1);
        }
        total = total + lens[i];
        i = i + 1;
    }
    assert(lens@.take(i as int) =~= lens@);
    total <= MAX_BUNDLE_SIZE
}

proof fn lemma_sum_prefix(lens: Seq<u64>, k: int)
    requires
        0 <= k <= lens.len(),
    ensures
        sum_lens(lens.take(k)) <= sum_lens(lens),
    decreases lens.len() - k,
{
    if k < lens.len() {
        lemma_sum_prefix(lens, k + 1);
        assert(lens.take(k + 1).drop_last() =~= lens.take(k));
    } else {
        assert(lens.take(k) =~= lens);
    }
}

/// The path with each `\\` written as `/`.
pub open spec fn forward_slashes(value: Seq<char>) -> Seq<char> {
    value.map_values(|c: char| if c == '\\' { '/' } else { c })
}

/// The path as split into parts by the local platform: Windows separates
/// parts at `/` and at `\\`, other platforms at `/` only.
pub open spec fn separated(value: Seq<char>, windows: bool) -> Seq<char> {
    if windows {
        forward_slashes(value)
    } else {
        value
    }
}

/// Whether the path starts with a Windows drive, such as `C:`.
pub open spec fn has_drive_prefix(value: Seq<char>) -> bool {
    &&& value.len() >= 2
    &&& value[1] == ':'
    &&& (('a' <= value[0] <= 'z') || ('A' <= value[0] <= 'Z'))
}

/// Whether a relative path from the peer stays inside the folder it is
/// received in, as the local platform reads the path: it does not start at
/// the root (nor, on Windows, at a drive), its first part is not `.`, and no
/// part is `..`.
pub open spec fn is_safe_relative(value: Seq<char>, windows: bool) -> bool {
    let v = separated(value, windows);
    let parts = split_on(v, '/');
    &&& !(v.len() > 0 && v[0] == '/')
    &&& !(windows && has_drive_prefix(value))
    &&& parts[0] != "."@
    &&& forall|i: int| 0 <= i < parts.len() ==> #[trigger] parts[i] != ".."@
}

fn forward_slash_text(value: &str) -> (r: String)
    ensures
        r@ == forward_slashes(value@),
{
    let n = value.unicode_len();
    let mut out = String::new();
    let mut i: usize = 0;
    while i < n
        invariant
            n == value@.len(),
            i <= n,
            out@ == forward_slashes(value@.take(i as int)),
        decreases n - i,
    {
        let c = value.get_char(i);
        proof {
            reveal_strlit("/");
            assert(value@.take(i + 1) =~= value@.take(i as int).push(c));
        }
        if c == '\\' {
            out.append("/");
        } else {
            let one = value.substring_char(i, i + 1);
            assert(one@ =~= seq![c]);
            out.append(one);
        }
        assert(out@ =~= forward_slashes(value@.take(i + 1)));
        i = i + 1;
    }
    assert(value@.take(n as int) =~= value@);
    out
}

fn separated_text(value: &str, windows: bool) -> (r: String)
    ensures
        r@ == separated(value@, windows),
{
    if windows {
        forward_slash_text(value)
    } else {
        String::from_str(value)
    }
}

fn drive_prefix(value: &str) -> (r: bool)
    ensures
        r == has_drive_prefix(value@),
{
    if value.unicode_len() < 2 {
        return false;
    }
    let c = value.get_char(0);
    value.get_char(1) == ':' && (('a' <= c && c <= 'z') || ('A' <= c && c <= 'Z'))
}

/// The parts of a path, its empty and `.` parts left out.
pub open spec fn normal_parts(parts: Seq<Seq<char>>) -> Seq<Seq<char>>
    decreases parts.len(),
{
    if parts.len() == 0 {
        seq![]
    } else {
        let prev = normal_parts(parts.drop_last());
        if parts.last().len() == 0 || parts.last() == "."@ {
            prev
        } else {
            prev.push(parts.last())
        }
    }
}

/// Parts joined with `/` between them.
pub open spec fn join_slash(parts: Seq<Seq<char>>) -> Seq<char>
    decreases parts.len(),
{
    if parts.len() == 0 {
        seq![]
    } else if parts.len() == 1 {
        parts[0]
    } else {
        join_slash(parts.drop_last()) + seq!['/'] + parts.last()
    }
}

fn check_safe(path: &str, windows: bool) -> (r: bool)
    ensures
        r == is_safe_relative(path@, windows),
{
    if windows && drive_prefix(path) {
        return false;
    }
    let text = separated_text(path, windows);
    let value = text.as_str();
    let parts = split_char(value, '/');
    proof {
        crate::tokens::lemma_split_on_nonempty(value@, '/');
        assert(str_views(parts@)[0] == parts@[0]@);
    }
    if value.unicode_len() > 0 && value.get_char(0) == '/' {
        return false;
    }
    if str_eq(parts[0], ".") {
        return false;
    }
    let ghost pv = str_views(parts@);
    let mut i: usize = 0;
    while i < parts.len()
        invariant
            pv == str_views(parts@),
            pv == split_on(value@, '/'),
            value@ == separated(path@, windows),
            i <= parts@.len(),
            forall|j: int| 0 <= j < i ==> #[trigger] pv[j] != ".."@,
        decreases parts@.len() - i,
    {
        assert(pv[i as int] == parts@[i as int]@);
        if str_eq(parts[i], "..") {
            return false;
        }
        i = i + 1;
    }
    true
}

/// A relative path from the peer, refused when it could leave the folder
/// files are received in; `windows` says whether the local platform is
/// Windows, which reads `\\` and drives in paths.
pub fn safe_relative_path(value: &str, windows: bool) -> (r: Result<String, UnsafePath>)
    ensures
        is_safe_relative(value@, windows) ==> (r matches Ok(s) && s@ == value@),
        !is_safe_relative(value@, windows) ==> r == Err::<String, UnsafePath>(UnsafePath),
{
    if check_safe(value, windows) {
        Ok(String::from_str(value))
    } else {
        Err(UnsafePath)
    }
}

/// A relative path written with `/` between its parts, refused when it
/// could leave the folder it is relative to; `windows` says whether the
/// local platform is Windows, which also separates parts at `\\`.
pub fn relative_to_string(path: &str, windows: bool) -> (r: Result<String, UnsafePath>)
    ensures
        is_safe_relative(path@, windows) ==> (r matches Ok(s) && s@ == join_slash(
            normal_parts(split_on(separated(path@, windows), '/')),
        )),
        !is_safe_relative(path@, windows) ==> r == Err::<String, UnsafePath>(UnsafePath),
{
    if !check_safe(path, windows) {
        return Err(UnsafePath);
    }
    let text = separated_text(path, windows);
    let parts = split_char(text.as_str(), '/');
    let ghost pv = str_views(parts@);
    let mut out = String::new();
    let mut count: usize = 0;
    let mut i: usize = 0;
    assert(pv.take(0) =~= Seq::<Seq<char>>::empty());
    while i < parts.len()
        invariant
            pv == str_views(parts@),
            i <= parts@.len(),
            out@ == join_slash(normal_parts(pv.take(i as int))),
            count == normal_parts(pv.take(i as int)).len(),
            count <= i,
        decreases parts@.len() - i,
    {
        let part = parts[i];
        proof {
            reveal_strlit("/");
            assert(pv.take(i + 1).drop_last() =~= pv.take(i as int));
            assert(pv.take(i + 1).last() == part@);
        }
        if part.unicode_len() > 0 && !str_eq(part, ".") {
            let ghost before = normal_parts(pv.take(i as int));
            if count > 0 {
                out.append("/");
            }
            out.append(part);
            proof {
                let after = before.push(part@);
                assert(after.drop_last() =~= before);
                if count == 0 {
                    assert(out@ =~= join_slash(after));
                } else {
                    assert(out@ =~= join_slash(after));
                }
            }
            count = count + 1;
        }
        i = i + 1;
    }
    assert(pv.take(i as int) =~= pv);
    Ok(out)
}

/// The first part of a path as the local platform reads it, its empty and
/// `.` parts left out; none when it has no such part.
pub open spec fn spec_top_part(value: Seq<char>, windows: bool) -> Option<Seq<char>> {
    let n = normal_parts(split_on(separated(value, windows), '/'));
    if n.len() > 0 {
        Some(n[0])
    } else {
        None
    }
}

proof fn lemma_normal_parts_prefix(parts: Seq<Seq<char>>, k: int)
    requires
        0 <= k <= parts.len(),
    ensures
        normal_parts(parts.take(k)).len() <= normal_parts(parts).len(),
        forall|i: int| 0 <= i < normal_parts(parts.take(k)).len() ==> #[trigger] normal_parts(parts)[i]
            == normal_parts(parts.take(k))[i],
    decreases parts.len() - k,
{
    if k < parts.len() {
        lemma_normal_parts_prefix(parts, k + 1);
        assert(parts.take(k + 1).drop_last() =~= parts.take(k));
    } else {
        assert(parts.take(k) =~= parts);
    }
}

/// The first part of a received path, which names the file or folder that
/// lands directly in the receive folder.
pub fn top_part(value: &str, windows: bool) -> (r: Option<String>)
    ensures
        opt_view(r) == spec_top_part(value@, windows),
{
    let text = separated_text(value, windows);
    let parts = split_char(text.as_str(), '/');
    let ghost pv = str_views(parts@);
    let mut i: usize = 0;
    assert(pv.take(0) =~= Seq::<Seq<char>>::empty());
    while i < parts.len()
        invariant
            pv == str_views(parts@),
            pv == split_on(separated(value@, windows), '/'),
            i <= parts@.len(),
            normal_parts(pv.take(i as int)).len() == 0,
        decreases parts@.len() - i,
    {
        let part = parts[i];
        proof {
            assert(pv.take(i + 1).drop_last() =~= pv.take(i as int));
            assert(pv.take(i + 1).last() == part@);
        }
        if part.unicode_len() > 0 && !str_eq(part, ".") {
            proof {
                lemma_normal_parts_prefix(pv, i + 1);
                assert(normal_parts(pv.take(i + 1))[0] == part@);
            }
            return Some(String::from_str(part));
        }
        i = i + 1;
    }
    assert(pv.take(i as int) =~= pv);
    None
}

/// Notes a received top-level entry once: the list as it was when the entry
/// is already in it, with the entry added at the end otherwise.
pub fn note_received(received: &mut Vec<String>, entry: String)
    ensures
        string_views(old(received)@).contains(entry@) ==> string_views(final(received)@) == string_views(
            old(received)@,
        ),
        !string_views(old(received)@).contains(entry@) ==> string_views(final(received)@) == string_views(
            old(received)@,
        ).push(entry@),
{
    let mut i: usize = 0;
    while i < received.len()
        invariant
            i <= received@.len(),
            forall|j: int| 0 <= j < i ==> (#[trigger] received@[j])@ != entry@,
        decreases received@.len() - i,
    {
        if str_eq(received[i].as_str(), entry.as_str()) {
            proof {
                assert(string_views(received@)[i as int] == entry@);
            }
            return;
        }
        i = i + 1;
    }
    let ghost before = received@;
    proof {
        assert(!string_views(before).contains(entry@)) by {
            if string_views(before).contains(entry@) {
                let j = choose|j: int| 0 <= j < string_views(before).len() && string_views(before)[j] == entry@;
                assert(before[j]@ == entry@);
            }
        }
    }
    received.push(entry);
    assert(string_views(received@) =~= string_views(before).push(entry@));
}

/// How much of a received file is still to come.
#[derive(Debug, Clone, Copy, PartialEq, Eq, Structural)]
pub struct ReceiveBudget {
    pub remaining: u64,
}

/// A chunk longer than what is left of the file it belongs to.
#[derive(Debug, Clone, Copy, PartialEq, Eq, Structural)]
pub struct ChunkTooLong;

impl ReceiveBudget {
    pub fn new(len: u64) -> (r: ReceiveBudget)
        ensures
            r.remaining == len,
    {
        ReceiveBudget { remaining: len }
    }

    /// Whether a chunk of `len` bytes fits in what is left.
    pub fn check(&self, len: usize) -> (r: Result<(), ChunkTooLong>)
        ensures
            r is Ok <==> len <= self.remaining,
    {
        if len as u64 > self.remaining {
            Err(ChunkTooLong)
        } else {
            Ok(())
        }
    }

    /// Counts a written chunk; whether the file is then complete.
    pub fn consume(&mut self, len: usize) -> (r: bool)
        requires
            len <= old(self).remaining,
        ensures
            final(self).remaining == old(self).remaining - len,
            r == (final(self).remaining == 0),
    {
        self.remaining = self.remaining - len as u64;
        self.remaining == 0
    }
}

} // verus!
