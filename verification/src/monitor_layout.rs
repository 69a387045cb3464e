use vstd::prelude::*;

use crate::layout::{parse_position_token, parse_size_pair, spec_i32, spec_layout, spec_parse_position_token, spec_parse_size_pair};
use crate::lines::str_views;
use crate::motion::LocalScreenLayout;
use crate::screen_size::{first_piece, trim_start_chars, trim_start_of};
use crate::tokens::{
    find_either, first_of, lemma_first_of_bounds, lemma_split_on_nonempty, parse_i32, split_char, split_on,
    split_whitespace, words,
};

verus! {

/// Edges of a rectangle: left, top, right, bottom.
pub type Bounds = (int, int, int, int);

pub open spec fn in_i32(v: int) -> bool {
    i32::MIN <= v <= i32::MAX
}

/// A monitor's geometry as `xrandr --listmonitors` writes it,
/// `WIDTH/MMxHEIGHT/MM+X+Y` after any `+` or `*` flags: width, height, x, y.
pub open spec fn spec_monitor_geometry_i32(t: Seq<char>) -> Option<(i32, i32, i32, i32)> {
    let u = trim_start_of(t, '+', '*');
    match first_of(u, 0, 'x', 'x') {
        Some(k) => {
            let parts = split_on(u.skip(k + 1), '+');
            if parts.len() >= 3 {
                match (
                    spec_i32(split_on(u.take(k), '/')[0]),
                    spec_i32(split_on(parts[0], '/')[0]),
                    spec_i32(parts[1]),
                    spec_i32(parts[2]),
                ) {
                    (Some(w), Some(h), Some(x), Some(y)) => Some((w, h, x, y)),
                    _ => None,
                }
            } else {
                None
            }
        },
        None => None,
    }
}

/// The geometry of one monitor in the output of `xrandr --listmonitors`,
/// with signed positions.
pub fn parse_monitor_geometry(token: &str) -> (r: Option<(i32, i32, i32, i32)>)
    ensures
        r == spec_monitor_geometry_i32(token@),
{
    let u = trim_start_chars(token, '+', '*');
    proof {
        lemma_first_of_bounds(u@, 0, 'x', 'x');
    }
    let k = match find_either(u, 'x', 'x') {
        Some(k) => k,
        None => return None,
    };
    let n = u.unicode_len();
    let width_part = u.substring_char(0, k);
    let rest = u.substring_char(k + 1, n);
    assert(width_part@ =~= u@.take(k as int));
    assert(rest@ =~= u@.skip(k + 1));
    let parts = split_char(rest, '+');
    if parts.len() < 3 {
        return None;
    }
    proof {
        assert(str_views(parts@)[0] == parts@[0]@);
        assert(str_views(parts@)[1] == parts@[1]@);
        assert(str_views(parts@)[2] == parts@[2]@);
    }
    let w = parse_i32(first_piece(width_part, '/'));
    let h = parse_i32(first_piece(parts[0], '/'));
    let x = parse_i32(parts[1]);
    let y = parse_i32(parts[2]);
    match (w, h, x, y) {
        (Some(w), Some(h), Some(x), Some(y)) => Some((w as i32, h as i32, x as i32, y as i32)),
        _ => None,
    }
}

/// Bounds widened to take in one more rectangle.
pub open spec fn widen(acc: Option<Bounds>, r: Bounds) -> Option<Bounds> {
    match acc {
        Some(b) => Some(
            (
                if r.0 < b.0 { r.0 } else { b.0 },
                if r.1 < b.1 { r.1 } else { b.1 },
                if r.2 > b.2 { r.2 } else { b.2 },
                if r.3 > b.3 { r.3 } else { b.3 },
            ),
        ),
        None => Some(r),
    }
}

/// The state of a walk over the monitors: the size last read (wlr-randr
/// only), the bounds so far, and whether every edge computed so far fits
/// in 32 bits.
pub struct LayoutWalk {
    pub size: Option<(i32, i32)>,
    pub bounds: Option<Bounds>,
    pub fits: bool,
}

pub open spec fn add_rect(s: LayoutWalk, x: i32, y: i32, w: int, h: int) -> LayoutWalk {
    let r: Bounds = (x as int, y as int, x + w, y + h);
    LayoutWalk { size: s.size, bounds: widen(s.bounds, r), fits: s.fits && in_i32(r.2) && in_i32(r.3) }
}

/// One token of `xrandr --listmonitors`: a monitor geometry is taken in,
/// each side at least one pixel long.
pub open spec fn xrandr_step(s: LayoutWalk, t: Seq<char>) -> LayoutWalk {
    match spec_monitor_geometry_i32(t) {
        Some((w, h, x, y)) => add_rect(s, x, y, if w < 1 { 1 } else { w as int }, if h < 1 { 1 } else { h as int }),
        None => s,
    }
}

/// One token of `wlr-randr`: a size is remembered; a `+X+Y` position
/// takes in a monitor of the size last read.
pub open spec fn wlr_step(s: LayoutWalk, t: Seq<char>) -> LayoutWalk {
    match spec_parse_size_pair(t) {
        Some(size) => LayoutWalk { size: Some(size), ..s },
        None => if t.len() > 0 && t[0] == '+' {
            match (s.size, spec_parse_position_token(t)) {
                (Some((w, h)), Some((x, y))) => add_rect(s, x, y, w as int, h as int),
                _ => s,
            }
        } else {
            s
        },
    }
}

pub open spec fn walk_tokens(s: LayoutWalk, toks: Seq<Seq<char>>, wlr: bool) -> LayoutWalk
    decreases toks.len(),
{
    if toks.len() == 0 {
        s
    } else {
        walk_tokens(if wlr { wlr_step(s, toks[0]) } else { xrandr_step(s, toks[0]) }, toks.drop_first(), wlr)
    }
}

pub open spec fn walk_lines(s: LayoutWalk, lines: Seq<Seq<char>>) -> LayoutWalk
    decreases lines.len(),
{
    if lines.len() == 0 {
        s
    } else {
        walk_lines(walk_tokens(s, words(lines[0]), true), lines.drop_first())
    }
}

pub open spec fn start_walk() -> LayoutWalk {
    LayoutWalk { size: None, bounds: None, fits: true }
}

/// The monitors' edges leave the 32-bit range: a sum or a difference of
/// coordinates does not fit (where the arithmetic would overflow).
#[derive(Debug, Clone, Copy, PartialEq, Eq, Structural)]
pub struct LayoutOverflow;

/// The layout spanning all the monitors a walk took in: from the top-left
/// corner, as wide and high as the bounds; nothing when there were none.
pub open spec fn walk_layout(s: LayoutWalk) -> Result<Option<LocalScreenLayout>, LayoutOverflow> {
    if !s.fits {
        Err(LayoutOverflow)
    } else {
        match s.bounds {
            None => Ok(None),
            Some(b) => if in_i32(b.2 - b.0) && in_i32(b.3 - b.1) {
                Ok(Some(spec_layout(b.0 as i32, b.1 as i32, (b.2 - b.0) as i32, (b.3 - b.1) as i32)))
            } else {
                Err(LayoutOverflow)
            },
        }
    }
}

/// The layout `xrandr --listmonitors` describes.
pub open spec fn spec_xrandr_layout(text: Seq<char>) -> Result<Option<LocalScreenLayout>, LayoutOverflow> {
    walk_layout(walk_tokens(start_walk(), words(text), false))
}

/// The layout `wlr-randr` describes.
pub open spec fn spec_wlr_randr_layout(text: Seq<char>) -> Result<Option<LocalScreenLayout>, LayoutOverflow> {
    walk_layout(walk_lines(start_walk(), split_on(text, '\n')))
}

/// The walk state in machine integers; the bounds hold only while every
/// edge fits.
struct Walk {
    size: Option<(i32, i32)>,
    bounds: Option<(i32, i32, i32, i32)>,
    fits: bool,
}

spec fn walk_view(w: Walk) -> LayoutWalk {
    LayoutWalk {
        size: w.size,
        bounds: match w.bounds {
            Some(b) => Some((b.0 as int, b.1 as int, b.2 as int, b.3 as int)),
            None => None,
        },
        fits: w.fits,
    }
}

/// Two walks agree while the edges fit; once they do not, only that
/// matters.
spec fn agrees(w: Walk, s: LayoutWalk) -> bool {
    &&& w.size == s.size
    &&& w.fits == s.fits
    &&& s.fits ==> walk_view(w) == s
}

fn add_rect_exec(w: Walk, x: i32, y: i32, width: i64, height: i64, Ghost(s): Ghost<LayoutWalk>) -> (r: Walk)
    requires
        i32::MIN <= width <= i32::MAX,
        i32::MIN <= height <= i32::MAX,
        agrees(w, s),
    ensures
        agrees(r, add_rect(s, x, y, width as int, height as int)),
{
    if !w.fits {
        return Walk { size: w.size, bounds: None, fits: false };
    }
    let right: i64 = x as i64 + width;
    let bottom: i64 = y as i64 + height;
    if right < i32::MIN as i64 || right > i32::MAX as i64 || bottom < i32::MIN as i64 || bottom
        > i32::MAX as i64 {
        return Walk { size: w.size, bounds: None, fits: false };
    }
    let r = (x, y, right as i32, bottom as i32);
    let b = match w.bounds {
        Some(b) => (
            if r.0 < b.0 { r.0 } else { b.0 },
            if r.1 < b.1 { r.1 } else { b.1 },
            if r.2 > b.2 { r.2 } else { b.2 },
            if r.3 > b.3 { r.3 } else { b.3 },
        ),
        None => r,
    };
    Walk { size: w.size, bounds: Some(b), fits: true }
}

fn walk_token(w: Walk, t: &str, wlr: bool, Ghost(s): Ghost<LayoutWalk>) -> (r: Walk)
    requires
        agrees(w, s),
    ensures
        agrees(r, if wlr { wlr_step(s, t@) } else { xrandr_step(s, t@) }),
{
    if !wlr {
        match parse_monitor_geometry(t) {
            Some((gw, gh, x, y)) => {
                let width: i64 = if gw < 1 { 1 } else { gw as i64 };
                let height: i64 = if gh < 1 { 1 } else { gh as i64 };
                add_rect_exec(w, x, y, width, height, Ghost(s))
            },
            None => w,
        }
    } else {
        match parse_size_pair(t) {
            Some(size) => Walk { size: Some(size), bounds: w.bounds, fits: w.fits },
            None => {
                if t.unicode_len() > 0 && t.get_char(0) == '+' {
                    match (w.size, parse_position_token(t)) {
                        (Some((sw, sh)), Some((x, y))) => add_rect_exec(w, x, y, sw as i64, sh as i64, Ghost(s)),
                        _ => w,
                    }
                } else {
                    w
                }
            },
        }
    }
}

fn walk_words(w: Walk, toks: &Vec<&str>, wlr: bool, Ghost(s): Ghost<LayoutWalk>) -> (r: Walk)
    requires
        agrees(w, s),
    ensures
        agrees(r, walk_tokens(s, str_views(toks@), wlr)),
{
    let mut cur = w;
    let ghost mut gs = s;
    let mut k: usize = 0;
    assert(str_views(toks@).skip(0) =~= str_views(toks@));
    while k < toks.len()
        invariant
            k <= toks@.len(),
            agrees(cur, gs),
            walk_tokens(s, str_views(toks@), wlr) == walk_tokens(gs, str_views(toks@).skip(k as int), wlr),
        decreases toks@.len() - k,
    {
        let ghost rest = str_views(toks@).skip(k as int);
        assert(rest[0] == toks@[k as int]@);
        assert(rest.drop_first() =~= str_views(toks@).skip(k + 1));
        cur = walk_token(cur, toks[k], wlr, Ghost(gs));
        proof {
            gs = if wlr { wlr_step(gs, rest[0]) } else { xrandr_step(gs, rest[0]) };
        }
        k = k + 1;
    }
    cur
}

fn finish(w: Walk, Ghost(s): Ghost<LayoutWalk>) -> (r: Result<Option<LocalScreenLayout>, LayoutOverflow>)
    requires
        agrees(w, s),
    ensures
        r == walk_layout(s),
{
    if !w.fits {
        return Err(LayoutOverflow);
    }
    match w.bounds {
        None => Ok(None),
        Some(b) => {
            let width: i64 = b.2 as i64 - b.0 as i64;
            let height: i64 = b.3 as i64 - b.1 as i64;
            if width < i32::MIN as i64 || width > i32::MAX as i64 || height < i32::MIN as i64 || height
                > i32::MAX as i64 {
                Err(LayoutOverflow)
            } else {
                Ok(Some(LocalScreenLayout::new(b.0, b.1, width as i32, height as i32)))
            }
        },
    }
}

/// The layout spanning the monitors in the output of
/// `xrandr --listmonitors`; an error where the edges leave 32 bits.
pub fn xrandr_layout(text: &str) -> (r: Result<Option<LocalScreenLayout>, LayoutOverflow>)
    ensures
        r == spec_xrandr_layout(text@),
{
    let toks = split_whitespace(text);
    let start = Walk { size: None, bounds: None, fits: true };
    assert(agrees(start, start_walk()));
    let w = walk_words(start, &toks, false, Ghost(start_walk()));
    finish(w, Ghost(walk_tokens(start_walk(), words(text@), false)))
}

/// The layout spanning the monitors in the output of `wlr-randr`; an error
/// where the edges leave 32 bits.
pub fn wlr_randr_layout(text: &str) -> (r: Result<Option<LocalScreenLayout>, LayoutOverflow>)
    ensures
        r == spec_wlr_randr_layout(text@),
{
    let lines = split_char(text, '\n');
    let mut cur = Walk { size: None, bounds: None, fits: true };
    let ghost mut s = start_walk();
    let mut k: usize = 0;
    assert(str_views(lines@).skip(0) =~= str_views(lines@));
    while k < lines.len()
        invariant
            k <= lines@.len(),
            str_views(lines@) == split_on(text@, '\n'),
            agrees(cur, s),
            walk_lines(start_walk(), split_on(text@, '\n')) == walk_lines(s, str_views(lines@).skip(k as int)),
        decreases lines@.len() - k,
    {
        let ghost rest = str_views(lines@).skip(k as int);
        assert(rest[0] == lines@[k as int]@);
        assert(rest.drop_first() =~= str_views(lines@).skip(k + 1));
        let toks = split_whitespace(lines[k]);
        cur = walk_words(cur, &toks, true, Ghost(s));
        proof {
            s = walk_tokens(s, words(lines@[k as int]@), true);
        }
        k = k + 1;
    }
    finish(cur, Ghost(s))
}

} // verus!
