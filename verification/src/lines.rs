use vstd::prelude::*;

use crate::text::{spec_trim, trim};

verus! {

/// The pieces of `s` between line feeds; the text after the last line feed
/// is the last piece.
///
/// `str::lines` also drops a carriage return before each line feed and a
/// last piece that is empty; every reader of lines in this crate trims
/// them and skips the empty ones, which makes both differences invisible.
pub open spec fn segments(s: Seq<char>) -> Seq<Seq<char>>
    decreases s.len(),
{
    if s.len() == 0 {
        seq![Seq::empty()]
    } else {
        let prev = segments(s.drop_last());
        if s.last() == '\n' {
            prev.push(Seq::empty())
        } else {
            prev.update(prev.len() - 1, prev.last().push(s.last()))
        }
    }
}

/// The pieces trimmed, the empty ones left out.
pub open spec fn nonempty_trimmed(pieces: Seq<Seq<char>>) -> Seq<Seq<char>>
    decreases pieces.len(),
{
    if pieces.len() == 0 {
        seq![]
    } else {
        let prev = nonempty_trimmed(pieces.drop_last());
        let t = spec_trim(pieces.last());
        if t.len() > 0 {
            prev.push(t)
        } else {
            prev
        }
    }
}

/// The lines of `s`, trimmed, without the empty ones.
pub open spec fn spec_trimmed_lines(s: Seq<char>) -> Seq<Seq<char>> {
    nonempty_trimmed(segments(s))
}

/// The views of a vector of string slices.
pub open spec fn str_views(v: Seq<&str>) -> Seq<Seq<char>> {
    v.map_values(|l: &str| l@)
}

/// The views of a vector of strings.
pub open spec fn string_views(v: Seq<String>) -> Seq<Seq<char>> {
    v.map_values(|l: String| l@)
}

pub proof fn lemma_segments_nonempty(s: Seq<char>)
    ensures
        segments(s).len() >= 1,
    decreases s.len(),
{
    if s.len() > 0 {
        lemma_segments_nonempty(s.drop_last());
    }
}

/// The lines of `value`, each trimmed, the empty ones left out.
pub fn trimmed_lines(value: &str) -> (r: Vec<&str>)
    ensures
        str_views(r@) == spec_trimmed_lines(value@),
{
    let n = value.unicode_len();
    let mut out: Vec<&str> = Vec::new();
    let mut start: usize = 0;
    let mut i: usize = 0;
    proof {
        assert(value@.take(0) =~= Seq::<char>::empty());
        assert(nonempty_trimmed(segments(value@.take(0)).drop_last()) =~= Seq::<Seq<char>>::empty());
        assert(value@.subrange(0, 0) =~= Seq::<char>::empty());
    }
    while i < n
        invariant
            n == value@.len(),
            start <= i <= n,
            segments(value@.take(i as int)).len() >= 1,
            segments(value@.take(i as int)).last() == value@.subrange(start as int, i as int),
            str_views(out@) == nonempty_trimmed(segments(value@.take(i as int)).drop_last()),
        decreases n - i,
    {
        let c = value.get_char(i);
        let ghost segs = segments(value@.take(i as int));
        let ghost next = value@.take(i + 1);
        proof {
            assert(next.drop_last() =~= value@.take(i as int));
            assert(next.last() == c);
        }
        if c == '\n' {
            let line = trim(value.substring_char(start, i));
            let ghost before = out@;
            if line.unicode_len() > 0 {
                out.push(line);
            }
            proof {
                assert(segments(next) == segs.push(Seq::empty()));
                assert(segments(next).drop_last() =~= segs);
                assert(segs.drop_last() =~= segs.take(segs.len() - 1));
                assert(str_views(out@) =~= nonempty_trimmed(segs));
                assert(value@.subrange(i + 1, i + 1) =~= Seq::<char>::empty());
            }
            start = i + 1;
        } else {
            proof {
                let upd = segs.update(segs.len() - 1, segs.last().push(c));
                assert(segments(next) == upd);
                assert(upd.drop_last() =~= segs.drop_last());
                assert(value@.subrange(start as int, i + 1) =~= value@.subrange(
                    start as int,
                    i as int,
                ).push(c));
            }
        }
        i = i + 1;
    }
    proof {
        assert(value@.take(n as int) =~= value@);
    }
    let line = trim(value.substring_char(start, n));
    if line.unicode_len() > 0 {
        out.push(line);
    }
    proof {
        let segs = segments(value@);
        assert(str_views(out@) =~= nonempty_trimmed(segs));
    }
    out
}

} // verus!
