//! Glyph geometry: mapping a logical cursor to a pixel x-coordinate
//! within one shaped line, and mapping a selection range to the pixel
//! span it highlights on that line.
//!
//! Pixel coordinates are integer; sub-glyph positions inside a
//! multi-byte grapheme cluster are interpolated proportionally by
//! grapheme count, with the cluster segmentation delegated to the
//! `unicode-segmentation` crate.
use vstd::prelude::*;
use vstd::slice::slice_subrange;
use unicode_segmentation::UnicodeSegmentation;
use crate::state::CursorPos;

verus! {

/// Coordinates, widths and text lengths of a well-formed layout run
/// stay within this bound, so that all geometry arithmetic fits in
/// 64 bits.
pub const COORD_LIMIT: i64 = 0x4000_0000;

/// One shaped glyph of a layout run: the byte range of the cluster it
/// renders, its pixel position and width, and its text direction.
#[derive(Clone, Copy, Debug, PartialEq, Eq, Structural)]
pub struct Glyph {
    pub start: usize,
    pub end: usize,
    pub x: i64,
    pub w: i64,
    pub rtl: bool,
}

/// One shaped, positioned physical line, produced by the external
/// text-layout engine and read-only here.
#[derive(Clone, Debug)]
pub struct LayoutRun {
    /// Index of the buffer line this run lays out.
    pub line_i: usize,
    /// The bytes of the line's text.
    pub text: Vec<u8>,
    /// The shaped glyphs in visual order.
    pub glyphs: Vec<Glyph>,
    /// Whether the whole run is right-to-left.
    pub rtl: bool,
    /// Pixel offset of the line's top edge.
    pub line_top: i64,
    /// Pixel height of the line.
    pub line_height: i64,
}

pub open spec fn glyph_wf(g: Glyph, text_len: int) -> bool {
    &&& g.start <= g.end <= text_len
    &&& 0 <= g.x <= COORD_LIMIT
    &&& 0 <= g.w <= COORD_LIMIT
}

pub open spec fn run_wf(run: LayoutRun) -> bool {
    &&& run.text@.len() <= COORD_LIMIT
    &&& 0 <= run.line_top <= COORD_LIMIT
    &&& 0 <= run.line_height <= COORD_LIMIT
    &&& forall|i: int|
        0 <= i < run.glyphs@.len() ==> glyph_wf(
            #[trigger] run.glyphs@[i],
            run.text@.len() as int,
        )
}

/// The byte offsets, relative to the cluster, at which the cluster's
/// extended grapheme clusters begin; a function of the bytes alone.
pub uninterp spec fn grapheme_starts_of(cluster: Seq<u8>) -> Seq<usize>;

/// Relies on `unicode_segmentation::UnicodeSegmentation::grapheme_indices`
/// (extended grapheme clusters, as UAX #29 defines them): the offsets
/// where graphemes begin depend on the bytes alone; every grapheme
/// spans at least one byte, so there are at most as many as there are
/// bytes, and each offset is a valid index into the cluster. Bytes
/// that are not valid UTF-8 yield no graphemes.
#[verifier::external_body]
fn grapheme_starts(cluster: &[u8]) -> (r: Vec<usize>)
    ensures
        r@ == grapheme_starts_of(cluster@),
        r@.len() <= cluster@.len(),
        forall|i: int| 0 <= i < r@.len() ==> (#[trigger] r@[i]) < cluster@.len(),
{
    match core::str::from_utf8(cluster) {
        Ok(s) => s.grapheme_indices(true).map(|(i, _)| i).collect(),
        Err(_) => Vec::new(),
    }
}

/// The bytes glyph `i` of the run renders.
pub open spec fn cluster_of(run: LayoutRun, i: int) -> Seq<u8> {
    run.text@.subrange(run.glyphs@[i].start as int, run.glyphs@[i].end as int)
}

/// How many of the offsets in `starts` lie strictly below `b`.
pub open spec fn count_below(starts: Seq<usize>, b: int) -> int
    decreases starts.len(),
{
    if starts.len() == 0 {
        0
    } else {
        count_below(starts.drop_last(), b) + (if (starts.last() as int) < b {
            1int
        } else {
            0int
        })
    }
}

proof fn lemma_count_below_push(starts: Seq<usize>, x: usize, b: int)
    ensures
        count_below(starts.push(x), b) == count_below(starts, b) + (if (x as int) < b {
            1int
        } else {
            0int
        }),
{
    assert(starts.push(x).drop_last() =~= starts);
    assert(starts.push(x).last() == x);
}

proof fn lemma_count_below_bounds(starts: Seq<usize>, b: int)
    ensures
        0 <= count_below(starts, b) <= starts.len(),
    decreases starts.len(),
{
    if starts.len() > 0 {
        lemma_count_below_bounds(starts.drop_last(), b);
    }
}

/// Graphemes of the cluster that begin strictly before byte offset `b`
/// (relative to the cluster's start).
pub open spec fn graphemes_before(cluster: Seq<u8>, b: int) -> int {
    count_below(grapheme_starts_of(cluster), b)
}

/// The proportional x-offset of a cursor that falls `b` bytes into a
/// glyph's cluster: width x (graphemes before) / (total graphemes).
pub open spec fn interp_offset(w: int, cluster: Seq<u8>, b: int) -> int {
    let total = grapheme_starts_of(cluster).len() as int;
    if total == 0 {
        0
    } else {
        (w * graphemes_before(cluster, b)) / total
    }
}

/// The glyph the cursor sits in, scanning from glyph `i`: the glyph
/// whose cluster starts at the cursor's offset (offset 0 within it), or
/// the one whose cluster the cursor falls strictly inside (with the
/// interpolated offset); past the last glyph's end the caret belongs at
/// the trailing edge, marked by the glyph count; a line with no glyphs
/// places the caret at column 0.
pub open spec fn cursor_glyph_from(cursor: CursorPos, run: LayoutRun, i: int) -> Option<(int, int)>
    decreases run.glyphs@.len() - i,
{
    if i < 0 || i >= run.glyphs@.len() {
        if run.glyphs@.len() == 0 {
            Some((0, 0))
        } else if cursor.index >= run.glyphs@[run.glyphs@.len() - 1].end {
            Some((run.glyphs@.len() as int, 0))
        } else {
            None
        }
    } else {
        let g = run.glyphs@[i];
        if cursor.index == g.start {
            Some((i, 0))
        } else if g.start < cursor.index < g.end {
            Some((i, interp_offset(g.w as int, cluster_of(run, i), cursor.index - g.start)))
        } else {
            cursor_glyph_from(cursor, run, i + 1)
        }
    }
}

/// Where in the run's glyphs the cursor sits, if the cursor is on this
/// run's line at all.
pub open spec fn cursor_glyph_spec(cursor: CursorPos, run: LayoutRun) -> Option<(int, int)> {
    if cursor.line != run.line_i {
        None
    } else {
        cursor_glyph_from(cursor, run, 0)
    }
}

/// The caret's run-local pixel position for a cursor on this run's
/// line: the located glyph's edge plus the interpolated offset,
/// direction-aware; the last glyph's trailing edge past the end; column
/// 0 on a line with no glyphs.
pub open spec fn caret_spec(cursor: CursorPos, run: LayoutRun) -> Option<(int, int)> {
    match cursor_glyph_spec(cursor, run) {
        None => None,
        Some((gi, off)) => {
            let x = if 0 <= gi < run.glyphs@.len() {
                let g = run.glyphs@[gi];
                if g.rtl {
                    g.x + g.w - off
                } else {
                    g.x + off
                }
            } else if run.glyphs@.len() > 0 {
                let g = run.glyphs@[run.glyphs@.len() - 1];
                if g.rtl {
                    g.x as int
                } else {
                    g.x + g.w
                }
            } else {
                0
            };
            Some((x, run.line_top as int))
        },
    }
}

/// The spec-level value of an executable glyph-index result.
pub open spec fn glyph_opt_view(r: Option<(usize, i64)>) -> Option<(int, int)> {
    match r {
        None => None,
        Some((gi, off)) => Some((gi as int, off as int)),
    }
}

/// The spec-level value of an executable caret result.
pub open spec fn caret_opt_view(r: Option<(i64, i64)>) -> Option<(int, int)> {
    match r {
        None => None,
        Some((x, y)) => Some((x as int, y as int)),
    }
}

/// Count the grapheme starts lying strictly below `b`.
fn count_starts_below(starts: &Vec<usize>, b: usize) -> (c: usize)
    ensures
        c == count_below(starts@, b as int),
        c <= starts@.len(),
{
    let mut c: usize = 0;
    let mut j: usize = 0;
    while j < starts.len()
        invariant
            j <= starts@.len(),
            c == count_below(starts@.take(j as int), b as int),
            c <= j,
        decreases starts@.len() - j,
    {
        proof {
            assert(starts@.take(j + 1) =~= starts@.take(j as int).push(starts@[j as int]));
            lemma_count_below_push(starts@.take(j as int), starts@[j as int], b as int);
            lemma_count_below_bounds(starts@.take(j as int), b as int);
        }
        if starts[j] < b {
            c = c + 1;
        }
        j = j + 1;
    }
    proof {
        assert(starts@.take(starts@.len() as int) =~= starts@);
        lemma_count_below_bounds(starts@, b as int);
    }
    c
}

/// Locate the cursor within the run's glyphs: the glyph index and the
/// interpolated pixel offset inside it, `glyphs.len()` for the
/// trailing edge, or nothing if the cursor is not on this run's line.
pub fn cursor_glyph_opt(cursor: &CursorPos, run: &LayoutRun) -> (r: Option<(usize, i64)>)
    requires
        run_wf(*run),
    ensures
        glyph_opt_view(r) == cursor_glyph_spec(*cursor, *run),
        match r {
            Some(p) => 0 <= p.1 <= 0x1000_0000_0000_0000i64,
            None => true,
        },
{
    if cursor.line != run.line_i {
        return None;
    }
    let mut i: usize = 0;
    while i < run.glyphs.len()
        invariant
            run_wf(*run),
            i <= run.glyphs@.len(),
            cursor_glyph_from(*cursor, *run, 0) == cursor_glyph_from(*cursor, *run, i as int),
            cursor.line == run.line_i,
        decreases run.glyphs@.len() - i,
    {
        let g = run.glyphs[i];
        if cursor.index == g.start {
            return Some((i, 0));
        } else if g.start < cursor.index && cursor.index < g.end {
            let cluster = slice_subrange(run.text.as_slice(), g.start, g.end);
            let starts = grapheme_starts(cluster);
            let total = starts.len();
            if total == 0 {
                return Some((i, 0));
            }
            let before = count_starts_below(&starts, cursor.index - g.start);
            proof {
                assert(g.w * before >= 0 && g.w * before <= 0x4000_0000 * 0x4000_0000int)
                    by (nonlinear_arith)
                    requires
                        0 <= g.w <= 0x4000_0000,
                        0 <= before <= 0x4000_0000,
                ;
            }
            let off_u: u64 = ((g.w as u64) * (before as u64)) / (total as u64);
            proof {
                assert(off_u as int <= (g.w as int) * (before as int)) by (nonlinear_arith)
                    requires
                        total >= 1,
                        0 <= (g.w as int) * (before as int),
                        off_u as int == ((g.w as int) * (before as int)) / (total as int),
                ;
            }
            return Some((i, off_u as i64));
        }
        i = i + 1;
    }
    if run.glyphs.len() == 0 {
        return Some((0, 0));
    }
    let last = run.glyphs[run.glyphs.len() - 1];
    if cursor.index >= last.end {
        return Some((run.glyphs.len(), 0));
    }
    None
}

/// The caret's run-local pixel position (x, line top) for a cursor on
/// this run's line.
pub fn cursor_position(cursor: &CursorPos, run: &LayoutRun) -> (r: Option<(i64, i64)>)
    requires
        run_wf(*run),
    ensures
        caret_opt_view(r) == caret_spec(*cursor, *run),
{
    let located = cursor_glyph_opt(cursor, run);
    match located {
        None => None,
        Some((gi, off)) => {
            let x: i64 = if gi < run.glyphs.len() {
                let g = run.glyphs[gi];
                if g.rtl {
                    g.x + g.w - off
                } else {
                    g.x + off
                }
            } else if run.glyphs.len() > 0 {
                let g = run.glyphs[run.glyphs.len() - 1];
                if g.rtl {
                    g.x
                } else {
                    g.x + g.w
                }
            } else {
                0
            };
            Some((x, run.line_top))
        },
    }
}


/// The smaller of two values.
pub open spec fn min2(a: int, b: int) -> int {
    if a <= b {
        a
    } else {
        b
    }
}

/// The larger of two values.
pub open spec fn max2(a: int, b: int) -> int {
    if a >= b {
        a
    } else {
        b
    }
}

/// The walk over one glyph's graphemes that accumulates the selected
/// pixel range. Returns (early, range): `early` is true when the walk
/// stopped at the first unselected grapheme after a selected stretch,
/// handing back that stretch; otherwise `range` is the stretch found so
/// far, carried on to the next glyph.
pub open spec fn hl_walk_cluster(
    run: LayoutRun,
    sel_start: CursorPos,
    sel_end: CursorPos,
    gi: int,
    ki: int,
    c_x: int,
    range: Option<(int, int)>,
) -> (bool, Option<(int, int)>)
    decreases run.glyphs@.len() - gi, grapheme_starts_of(cluster_of(run, gi)).len() - ki,
{
    if gi < 0 || gi >= run.glyphs@.len() {
        (false, range)
    } else {
        let g = run.glyphs@[gi];
        let starts = grapheme_starts_of(cluster_of(run, gi));
        let total = starts.len() as int;
        if !(0 <= ki < total) {
            hl_walk_glyph(run, sel_start, sel_end, gi + 1, range)
        } else {
            let c_w = g.w as int / total;
            let c_start = g.start + starts[ki];
            let c_end = if ki + 1 < total {
                g.start + starts[ki + 1]
            } else {
                g.end as int
            };
            if (sel_start.line != run.line_i || c_end > sel_start.index) && (sel_end.line
                != run.line_i || c_start < sel_end.index) {
                let nr = match range {
                    Some((mn, mx)) => Some((min2(mn, c_x), max2(mx, c_x + c_w))),
                    None => Some((c_x, c_x + c_w)),
                };
                hl_walk_cluster(run, sel_start, sel_end, gi, ki + 1, c_x + c_w, nr)
            } else if range is Some {
                (true, range)
            } else {
                hl_walk_cluster(run, sel_start, sel_end, gi, ki + 1, c_x + c_w, range)
            }
        }
    }
}

/// The walk over the run's glyphs, glyph by glyph.
pub open spec fn hl_walk_glyph(
    run: LayoutRun,
    sel_start: CursorPos,
    sel_end: CursorPos,
    gi: int,
    range: Option<(int, int)>,
) -> (bool, Option<(int, int)>)
    decreases run.glyphs@.len() - gi, grapheme_starts_of(cluster_of(run, gi)).len() + 1,
{
    if gi < 0 || gi >= run.glyphs@.len() {
        (false, range)
    } else {
        hl_walk_cluster(run, sel_start, sel_end, gi, 0, run.glyphs@[gi].x as int, range)
    }
}

/// The highlighted pixel span of the selection on this run: nothing
/// without a selection or off the selected lines; the first contiguous
/// selected stretch otherwise; the whole buffer width for an empty line
/// strictly inside the selection; extended to the run's trailing edge
/// (direction-aware) when the selection continues past this line.
pub open spec fn highlight_spec(
    bounds: Option<(CursorPos, CursorPos)>,
    buffer_width: Option<i64>,
    run: LayoutRun,
) -> Option<(int, int, int)> {
    match bounds {
        None => None,
        Some((sel_start, sel_end)) => {
            if !(sel_start.line <= run.line_i <= sel_end.line) {
                None
            } else {
                let bw = match buffer_width {
                    Some(w) => w as int,
                    None => 0int,
                };
                let (early, range) = hl_walk_glyph(run, sel_start, sel_end, 0, None);
                if early {
                    match range {
                        Some((mn, mx)) => Some((mn, run.line_top as int, max2(0, mx - mn))),
                        None => None,
                    }
                } else {
                    let r2 = if run.glyphs@.len() == 0 && sel_end.line > run.line_i {
                        Some((0int, bw))
                    } else {
                        range
                    };
                    match r2 {
                        None => None,
                        Some((mn, mx)) => {
                            let mn2 = if sel_end.line > run.line_i && run.rtl {
                                0int
                            } else {
                                mn
                            };
                            let mx2 = if sel_end.line > run.line_i && !run.rtl {
                                bw
                            } else {
                                mx
                            };
                            Some((mn2, run.line_top as int, max2(0, mx2 - mn2)))
                        },
                    }
                }
            }
        },
    }
}

/// The spec-level value of an executable highlight result.
pub open spec fn hl_opt_view(r: Option<(i64, i64, i64)>) -> Option<(int, int, int)> {
    match r {
        None => None,
        Some((x, y, w)) => Some((x as int, y as int, w as int)),
    }
}

/// The spec-level value of an executable pixel range.
pub open spec fn range_view(r: Option<(i64, i64)>) -> Option<(int, int)> {
    match r {
        None => None,
        Some((mn, mx)) => Some((mn as int, mx as int)),
    }
}

/// The run-local pixel span (left edge, line top, width) the selection
/// highlights on this run, if any.
pub fn highlight_selection(
    selection_bounds: Option<(CursorPos, CursorPos)>,
    buffer_width: Option<i64>,
    run: &LayoutRun,
) -> (r: Option<(i64, i64, i64)>)
    requires
        run_wf(*run),
        match buffer_width {
            Some(w) => 0 <= w <= COORD_LIMIT,
            None => true,
        },
    ensures
        hl_opt_view(r) == highlight_spec(selection_bounds, buffer_width, *run),
{
    let (sel_start, sel_end) = match selection_bounds {
        None => {
            return None;
        },
        Some(p) => p,
    };
    if !(sel_start.line <= run.line_i && run.line_i <= sel_end.line) {
        return None;
    }
    let bw: i64 = match buffer_width {
        Some(w) => w,
        None => 0,
    };
    let mut range: Option<(i64, i64)> = None;
    let mut gi: usize = 0;
    while gi < run.glyphs.len()
        invariant
            run_wf(*run),
            gi <= run.glyphs@.len(),
            sel_start.line <= run.line_i <= sel_end.line,
            selection_bounds == Some((sel_start, sel_end)),
            bw == (match buffer_width {
                Some(w) => w,
                None => 0i64,
            }),
            0 <= bw <= COORD_LIMIT,
            hl_walk_glyph(*run, sel_start, sel_end, 0, None) == hl_walk_glyph(
                *run,
                sel_start,
                sel_end,
                gi as int,
                range_view(range),
            ),
            match range {
                Some((mn, mx)) => 0 <= mn <= mx <= 0x2000_0000_0000_0000i64,
                None => true,
            },
        decreases run.glyphs@.len() - gi,
    {
        let g = run.glyphs[gi];
        let cluster = slice_subrange(run.text.as_slice(), g.start, g.end);
        let starts = grapheme_starts(cluster);
        let total = starts.len();
        let c_w: i64 = if total > 0 {
            let q: u64 = (g.w as u64) / (total as u64);
            proof {
                assert(q as int <= g.w as int) by (nonlinear_arith)
                    requires
                        total >= 1,
                        g.w >= 0,
                        q as int == (g.w as int) / (total as int),
                ;
            }
            q as i64
        } else {
            0
        };
        let mut c_x: i64 = g.x;
        let mut ki: usize = 0;
        while ki < starts.len()
            invariant
                run_wf(*run),
                gi < run.glyphs@.len(),
                g == run.glyphs@[gi as int],
                cluster@ == cluster_of(*run, gi as int),
                starts@ == grapheme_starts_of(cluster_of(*run, gi as int)),
                total == starts@.len(),
                total <= cluster@.len() <= COORD_LIMIT,
                forall|t: int| 0 <= t < starts@.len() ==> (#[trigger] starts@[t]) < cluster@.len(),
                ki <= total,
                selection_bounds == Some((sel_start, sel_end)),
                bw == (match buffer_width {
                    Some(w) => w,
                    None => 0i64,
                }),
                0 <= bw <= COORD_LIMIT,
                0 <= c_w <= g.w,
                total > 0 ==> c_w as int == g.w as int / total as int,
                c_x as int == g.x as int + (ki as int) * (c_w as int),
                0 <= c_x <= 0x2000_0000_0000_0000i64,
                sel_start.line <= run.line_i <= sel_end.line,
                hl_walk_glyph(*run, sel_start, sel_end, 0, None) == hl_walk_cluster(
                    *run,
                    sel_start,
                    sel_end,
                    gi as int,
                    ki as int,
                    c_x as int,
                    range_view(range),
                ),
                match range {
                    Some((mn, mx)) => 0 <= mn <= mx <= 0x2000_0000_0000_0000i64,
                    None => true,
                },
            decreases starts@.len() - ki,
        {
            proof {
                assert((ki + 1) * (c_w as int) == (ki as int) * (c_w as int) + c_w as int)
                    by (nonlinear_arith);
                assert((ki as int) * (c_w as int) <= 0x1000_0000_0000_0000int)
                    by (nonlinear_arith)
                    requires
                        0 <= ki as int <= 0x4000_0000,
                        0 <= c_w as int <= 0x4000_0000,
                ;
            }
            let c_start: usize = g.start + starts[ki];
            let c_end: usize = if ki + 1 < total {
                g.start + starts[ki + 1]
            } else {
                g.end
            };
            if (sel_start.line != run.line_i || c_end > sel_start.index) && (sel_end.line
                != run.line_i || c_start < sel_end.index) {
                range = match range {
                    Some((mn, mx)) => {
                        let nmn = if mn <= c_x {
                            mn
                        } else {
                            c_x
                        };
                        let nmx = if mx >= c_x + c_w {
                            mx
                        } else {
                            c_x + c_w
                        };
                        Some((nmn, nmx))
                    },
                    None => Some((c_x, c_x + c_w)),
                };
            } else if range.is_some() {
                let (mn, mx) = range.unwrap();
                proof {
                    assert(hl_walk_cluster(
                        *run,
                        sel_start,
                        sel_end,
                        gi as int,
                        ki as int,
                        c_x as int,
                        range_view(range),
                    ) == (true, range_view(range)));
                }
                let width: i64 = if mx - mn >= 0 {
                    mx - mn
                } else {
                    0
                };
                return Some((mn, run.line_top, width));
            }
            c_x = c_x + c_w;
            ki = ki + 1;
        }
        gi = gi + 1;
    }
    let range = if run.glyphs.len() == 0 && sel_end.line > run.line_i {
        Some((0i64, bw))
    } else {
        range
    };
    match range {
        None => None,
        Some((mn, mx)) => {
            let mn2: i64 = if sel_end.line > run.line_i && run.rtl {
                0
            } else {
                mn
            };
            let mx2: i64 = if sel_end.line > run.line_i && !run.rtl {
                bw
            } else {
                mx
            };
            let width: i64 = if mx2 - mn2 >= 0 {
                mx2 - mn2
            } else {
                0
            };
            Some((mn2, run.line_top, width))
        },
    }
}



/// Check a glyph's well-formedness at run time.
fn check_glyph_wf(g: &Glyph, text_len: usize) -> (b: bool)
    ensures
        b == glyph_wf(*g, text_len as int),
{
    g.start <= g.end && g.end <= text_len && 0 <= g.x && g.x <= COORD_LIMIT && 0 <= g.w && g.w
        <= COORD_LIMIT
}

/// Check a layout run's well-formedness at run time, so unverified
/// callers can gate the geometry queries.
pub fn check_run_wf(run: &LayoutRun) -> (b: bool)
    ensures
        b == run_wf(*run),
{
    if !(run.text.len() <= COORD_LIMIT as usize && 0 <= run.line_top && run.line_top <= COORD_LIMIT
        && 0 <= run.line_height && run.line_height <= COORD_LIMIT) {
        return false;
    }
    let mut i: usize = 0;
    while i < run.glyphs.len()
        invariant
            i <= run.glyphs@.len(),
            run.text@.len() <= COORD_LIMIT,
            forall|j: int|
                0 <= j < i ==> glyph_wf(#[trigger] run.glyphs@[j], run.text@.len() as int),
        decreases run.glyphs@.len() - i,
    {
        if !check_glyph_wf(&run.glyphs[i], run.text.len()) {
            return false;
        }
        i = i + 1;
    }
    true
}

/// The caret query is pure: its contract pins the result as a function
/// of the cursor and the run alone, so any two results that meet it on
/// the same inputs are identical.
pub proof fn lemma_caret_idempotent(
    r1: Option<(i64, i64)>,
    r2: Option<(i64, i64)>,
    cursor: CursorPos,
    run: LayoutRun,
)
    requires
        caret_opt_view(r1) == caret_spec(cursor, run),
        caret_opt_view(r2) == caret_spec(cursor, run),
    ensures
        r1 == r2,
{
    match (r1, r2) {
        (Some((x1, y1)), Some((x2, y2))) => {
            assert(x1 as int == x2 as int && y1 as int == y2 as int);
        },
        _ => (),
    }
}

/// The selection-highlight query is pure in the same way: two results
/// that meet its contract on the same selection bounds, buffer width
/// and run are identical.
pub proof fn lemma_highlight_idempotent(
    r1: Option<(i64, i64, i64)>,
    r2: Option<(i64, i64, i64)>,
    bounds: Option<(CursorPos, CursorPos)>,
    buffer_width: Option<i64>,
    run: LayoutRun,
)
    requires
        hl_opt_view(r1) == highlight_spec(bounds, buffer_width, run),
        hl_opt_view(r2) == highlight_spec(bounds, buffer_width, run),
    ensures
        r1 == r2,
{
    match (r1, r2) {
        (Some((x1, y1, w1)), Some((x2, y2, w2))) => {
            assert(x1 as int == x2 as int && y1 as int == y2 as int && w1 as int == w2 as int);
        },
        _ => (),
    }
}

} // verus!
