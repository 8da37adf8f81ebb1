//! Pointer hit testing: which displayed text region a window-space
//! pointer position lands in, the pointer's position in that region's
//! local top-left-origin space, and which styled span covers the
//! resolved byte offset.
//!
//! Regions are tested in iteration order; the first whose bounds
//! contain the pointer and whose layout resolves the position wins.
//! Stacking order is not consulted.
use vstd::prelude::*;
use crate::geometry::COORD_LIMIT;
use crate::reconcile::{BufferLine, StyledSpan};

verus! {

/// One displayed text region: an opaque entity id, the window-space
/// center of its node, and the node's logical size.
#[derive(Clone, Copy, Debug, PartialEq, Eq, Structural)]
pub struct Region {
    pub entity: u64,
    pub center_x: i64,
    pub center_y: i64,
    pub width: i64,
    pub height: i64,
}

pub open spec fn region_wf(r: Region) -> bool {
    &&& -COORD_LIMIT <= r.center_x <= COORD_LIMIT
    &&& -COORD_LIMIT <= r.center_y <= COORD_LIMIT
    &&& 0 <= r.width <= COORD_LIMIT
    &&& 0 <= r.height <= COORD_LIMIT
}

/// The window-space x of the region's left edge, from its center and
/// size.
pub open spec fn region_left(r: Region) -> int {
    r.center_x - r.width / 2
}

/// The window-space y of the region's top edge.
pub open spec fn region_top(r: Region) -> int {
    r.center_y - r.height / 2
}

/// The pointer lies within the region's axis-aligned bounds (edges
/// inclusive).
pub open spec fn region_contains(r: Region, px: int, py: int) -> bool {
    &&& region_left(r) <= px <= region_left(r) + r.width
    &&& region_top(r) <= py <= region_top(r) + r.height
}

/// What a resolved hit reports: the entity, the styled span covering
/// the resolved offset, and the pointer position in region-local
/// top-left-origin coordinates.
#[derive(Clone, Copy, Debug, PartialEq, Eq, Structural)]
pub struct HitOutput {
    pub entity: u64,
    pub span_index: usize,
    pub x: i64,
    pub y: i64,
}

/// The section of the first styled span containing byte offset `idx`,
/// scanning from span `i`; offsets in no span (unstyled gaps) belong
/// to the default section 0.
pub open spec fn section_at_from(spans: Seq<StyledSpan>, idx: int, i: int) -> int
    decreases spans.len() - i,
{
    if i < 0 || i >= spans.len() {
        0
    } else if spans[i].start <= idx < spans[i].end {
        spans[i].section as int
    } else {
        section_at_from(spans, idx, i + 1)
    }
}

pub open spec fn section_at(spans: Seq<StyledSpan>, idx: int) -> int {
    section_at_from(spans, idx, 0)
}

/// Which styled span covers byte offset `idx` of a line.
pub fn span_index_at(spans: &Vec<StyledSpan>, idx: usize) -> (s: usize)
    ensures
        s == section_at(spans@, idx as int),
{
    let mut i: usize = 0;
    while i < spans.len()
        invariant
            i <= spans@.len(),
            section_at(spans@, idx as int) == section_at_from(spans@, idx as int, i as int),
        decreases spans@.len() - i,
    {
        let sp = spans[i];
        if sp.start <= idx && idx < sp.end {
            return sp.section;
        }
        i = i + 1;
    }
    0
}

/// The pointer position translated into the region's local
/// top-left-origin space.
pub fn region_local(r: &Region, px: i64, py: i64) -> (l: (i64, i64))
    requires
        region_wf(*r),
        -COORD_LIMIT <= px <= COORD_LIMIT,
        -COORD_LIMIT <= py <= COORD_LIMIT,
    ensures
        l.0 == px - region_left(*r),
        l.1 == py - region_top(*r),
{
    let half_w: i64 = ((r.width as u64) / 2) as i64;
    let half_h: i64 = ((r.height as u64) / 2) as i64;
    (px - (r.center_x - half_w), py - (r.center_y - half_h))
}

/// One candidate for a pointer hit: a displayed region, what the
/// region's layout resolved for the pointer's local position (a
/// (line, byte index) pair, or nothing), and the model of the lines'
/// styled spans for span lookup.
#[derive(Clone, Copy)]
pub struct HitCandidate<'a> {
    pub region: Region,
    pub resolved: Option<(usize, usize)>,
    pub lines: &'a Vec<BufferLine>,
}

/// The first candidate, scanning from `i`, whose bounds contain the
/// pointer and whose layout resolved the position.
pub open spec fn first_hit_from(cands: Seq<HitCandidate>, px: int, py: int, i: int) -> Option<int>
    decreases cands.len() - i,
{
    if i < 0 || i >= cands.len() {
        None
    } else if region_contains(cands[i].region, px, py) && cands[i].resolved is Some {
        Some(i)
    } else {
        first_hit_from(cands, px, py, i + 1)
    }
}

/// The styled span covering a resolved (line, byte index) position of
/// a candidate; positions on lines the model does not hold belong to
/// the default section 0.
pub open spec fn resolved_span(c: HitCandidate, line: int, idx: int) -> int {
    if 0 <= line < c.lines@.len() {
        section_at(c.lines@[line].spans@, idx)
    } else {
        0
    }
}

/// Resolve a pointer position against the displayed regions, in
/// order: the first region whose bounds contain the pointer and whose
/// layout resolved the local position reports the hit, with the
/// pointer translated into that region's local space and the styled
/// span covering the resolved offset. Stacking order is not
/// consulted.
pub fn hit<'a>(candidates: &Vec<HitCandidate<'a>>, px: i64, py: i64) -> (r: Option<HitOutput>)
    requires
        forall|i: int|
            0 <= i < candidates@.len() ==> region_wf((#[trigger] candidates@[i]).region),
        -COORD_LIMIT <= px <= COORD_LIMIT,
        -COORD_LIMIT <= py <= COORD_LIMIT,
    ensures
        match first_hit_from(candidates@, px as int, py as int, 0) {
            Some(j) => match r {
                Some(h) => h.entity == candidates@[j].region.entity && h.x == px - region_left(
                    candidates@[j].region,
                ) && h.y == py - region_top(candidates@[j].region) && match candidates@[j].resolved {
                    Some((line, idx)) => h.span_index == resolved_span(
                        candidates@[j],
                        line as int,
                        idx as int,
                    ),
                    None => false,
                },
                None => false,
            },
            None => r is None,
        },
{
    let mut i: usize = 0;
    while i < candidates.len()
        invariant
            forall|j: int|
                0 <= j < candidates@.len() ==> region_wf((#[trigger] candidates@[j]).region),
            -COORD_LIMIT <= px <= COORD_LIMIT,
            -COORD_LIMIT <= py <= COORD_LIMIT,
            i <= candidates@.len(),
            first_hit_from(candidates@, px as int, py as int, 0) == first_hit_from(
                candidates@,
                px as int,
                py as int,
                i as int,
            ),
        decreases candidates@.len() - i,
    {
        let c = candidates[i];
        let rg = c.region;
        let half_w: i64 = ((rg.width as u64) / 2) as i64;
        let half_h: i64 = ((rg.height as u64) / 2) as i64;
        let left: i64 = rg.center_x - half_w;
        let top: i64 = rg.center_y - half_h;
        if left <= px && px <= left + rg.width && top <= py && py <= top + rg.height {
            match c.resolved {
                Some((line, idx)) => {
                    let span_index: usize = if line < c.lines.len() {
                        span_index_at(&c.lines[line].spans, idx)
                    } else {
                        0
                    };
                    return Some(HitOutput { entity: rg.entity, span_index, x: px - left, y: py - top });
                },
                None => (),
            }
        }
        i = i + 1;
    }
    None
}

/// Check a region's well-formedness at run time, so unverified
/// callers can gate the hit test.
pub fn check_region_wf(r: &Region) -> (b: bool)
    ensures
        b == region_wf(*r),
{
    -COORD_LIMIT <= r.center_x && r.center_x <= COORD_LIMIT && -COORD_LIMIT <= r.center_y
        && r.center_y <= COORD_LIMIT && 0 <= r.width && r.width <= COORD_LIMIT && 0 <= r.height
        && r.height <= COORD_LIMIT
}

} // verus!
