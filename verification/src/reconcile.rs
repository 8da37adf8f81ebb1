//! Post-edit reconciliation: flattening the buffer's per-line styled
//! spans back into the external ordered list of styled sections.
//!
//! A line's unstyled gap adopts the style of the span that follows it;
//! a trailing gap at end of line adopts the span before it; a line
//! ending is appended once the line's bytes are consumed, also for a
//! blank line with no bytes at all.  A section that receives no text
//! is removed, except that the last remaining section is cleared
//! instead, so a text node never loses its last section.
use vstd::prelude::*;

verus! {

/// A styled byte range of one line, tagged with the index of the
/// external section it belongs to.
#[derive(Clone, Copy, Debug, PartialEq, Eq, Structural)]
pub struct StyledSpan {
    pub start: usize,
    pub end: usize,
    /// Index of the external styled section this span came from.
    pub section: usize,
}

/// One line of the text buffer: its raw bytes, its line-ending bytes,
/// and its styled spans in byte order (possibly with unstyled gaps).
#[derive(Clone, Debug)]
pub struct BufferLine {
    pub text: Vec<u8>,
    pub ending: Vec<u8>,
    pub spans: Vec<StyledSpan>,
}

/// One external styled section: an opaque style tag and its text.
#[derive(Clone, Debug)]
pub struct TextSection {
    pub tag: u64,
    pub text: Vec<u8>,
}

/// Spans of a line lie in byte order, do not overlap, and stay within
/// the line's text.
pub open spec fn line_wf(l: BufferLine) -> bool {
    &&& forall|i: int|
        0 <= i < l.spans@.len() ==> (#[trigger] l.spans@[i]).start <= l.spans@[i].end
            <= l.text@.len()
    &&& forall|i: int|
        0 < i < l.spans@.len() ==> (#[trigger] l.spans@[i]).start >= l.spans@[i - 1].end
}

pub open spec fn lines_wf(lines: Seq<BufferLine>) -> bool {
    forall|i: int| 0 <= i < lines.len() ==> line_wf(#[trigger] lines[i])
}

/// The byte position reached before span `i` of a line: the end of the
/// previous span, or the start of the line.
pub open spec fn span_pos(l: BufferLine, i: int) -> int {
    if i == 0 {
        0
    } else {
        l.spans@[i - 1].end as int
    }
}

/// The bytes span `i` of a line contributes to its section: the
/// unstyled gap before it, the styled range itself, and the line
/// ending if the span consumes the line's last byte.
pub open spec fn span_chunk(l: BufferLine, i: int) -> Seq<u8> {
    let s = l.spans@[i];
    let pos = span_pos(l, i);
    (if pos < s.start {
        l.text@.subrange(pos, s.start as int)
    } else {
        Seq::empty()
    }) + l.text@.subrange(s.start as int, s.end as int) + (if s.end == l.text@.len() {
        l.ending@
    } else {
        Seq::empty()
    })
}

/// The byte position consumed once all spans are processed.
pub open spec fn line_end_pos(l: BufferLine) -> int {
    if l.spans@.len() == 0 {
        0
    } else {
        l.spans@[l.spans@.len() - 1].end as int
    }
}

/// The section that owns a trailing gap: the last span's section, or
/// section 0 for a line with no spans at all.
pub open spec fn line_last_section(l: BufferLine) -> int {
    if l.spans@.len() == 0 {
        0
    } else {
        l.spans@[l.spans@.len() - 1].section as int
    }
}

/// The line still owes a trailing chunk after its spans: unstyled
/// bytes remain, or the line is blank (no bytes, no spans) and its
/// ending must still be carried so the blank line survives a rebuild.
pub open spec fn line_has_trailing(l: BufferLine) -> bool {
    line_end_pos(l) < l.text@.len() || (l.spans@.len() == 0 && l.text@.len() == 0
        && l.ending@.len() > 0)
}

/// Everything one line hands out, in order: one (section, bytes) pair
/// per span, then the trailing gap with the line ending, if any bytes
/// remain or the line is blank with an ending.
pub open spec fn line_chunks(l: BufferLine) -> Seq<(int, Seq<u8>)> {
    Seq::new(l.spans@.len(), |i: int| (l.spans@[i].section as int, span_chunk(l, i))) + (if line_has_trailing(
        l,
    ) {
        seq![
            (
                line_last_section(l),
                l.text@.subrange(line_end_pos(l), l.text@.len() as int) + l.ending@,
            ),
        ]
    } else {
        Seq::empty()
    })
}

/// Everything the whole buffer hands out, line by line.
pub open spec fn all_chunks(lines: Seq<BufferLine>) -> Seq<(int, Seq<u8>)>
    decreases lines.len(),
{
    if lines.len() == 0 {
        Seq::empty()
    } else {
        all_chunks(lines.drop_last()) + line_chunks(lines.last())
    }
}

/// The text accumulated for section `k`: the concatenation, in order,
/// of every chunk addressed to it.
pub open spec fn chunks_for(cs: Seq<(int, Seq<u8>)>, k: int) -> Seq<u8>
    decreases cs.len(),
{
    if cs.len() == 0 {
        Seq::empty()
    } else {
        chunks_for(cs.drop_last(), k) + (if cs.last().0 == k {
            cs.last().1
        } else {
            Seq::empty()
        })
    }
}

/// Section `k` received some chunk (possibly empty).
pub open spec fn touches(cs: Seq<(int, Seq<u8>)>, k: int) -> bool {
    exists|i: int| 0 <= i < cs.len() && (#[trigger] cs[i]).0 == k
}

proof fn lemma_chunks_for_push(cs: Seq<(int, Seq<u8>)>, x: (int, Seq<u8>), k: int)
    ensures
        chunks_for(cs.push(x), k) == chunks_for(cs, k) + (if x.0 == k {
            x.1
        } else {
            Seq::<u8>::empty()
        }),
{
    assert(cs.push(x).drop_last() =~= cs);
    assert(cs.push(x).last() == x);
}

proof fn lemma_touches_push(cs: Seq<(int, Seq<u8>)>, x: (int, Seq<u8>), k: int)
    ensures
        touches(cs.push(x), k) <==> (touches(cs, k) || x.0 == k),
{
    if touches(cs, k) {
        let i = choose|i: int| 0 <= i < cs.len() && (#[trigger] cs[i]).0 == k;
        assert(cs.push(x)[i].0 == k);
    }
    if x.0 == k {
        assert(cs.push(x)[cs.len() as int].0 == k);
    }
    if touches(cs.push(x), k) && x.0 != k {
        let i = choose|i: int| 0 <= i < cs.push(x).len() && (#[trigger] cs.push(x)[i]).0 == k;
        if i < cs.len() {
            assert(cs[i].0 == k);
        }
    }
}

proof fn lemma_chunks_for_concat(a: Seq<(int, Seq<u8>)>, b: Seq<(int, Seq<u8>)>, k: int)
    ensures
        chunks_for(a + b, k) == chunks_for(a, k) + chunks_for(b, k),
    decreases b.len(),
{
    if b.len() == 0 {
        assert(a + b =~= a);
        assert(chunks_for(b, k) == Seq::<u8>::empty());
        assert(chunks_for(a, k) + Seq::<u8>::empty() =~= chunks_for(a, k));
    } else {
        lemma_chunks_for_concat(a, b.drop_last(), k);
        assert((a + b).drop_last() =~= a + b.drop_last());
        assert((a + b).last() == b.last());
        assert(chunks_for(a, k) + (chunks_for(b.drop_last(), k) + (if b.last().0 == k {
            b.last().1
        } else {
            Seq::<u8>::empty()
        })) =~= (chunks_for(a, k) + chunks_for(b.drop_last(), k)) + (if b.last().0 == k {
            b.last().1
        } else {
            Seq::<u8>::empty()
        }));
    }
}

proof fn lemma_touches_concat(a: Seq<(int, Seq<u8>)>, b: Seq<(int, Seq<u8>)>, k: int)
    ensures
        touches(a + b, k) <==> (touches(a, k) || touches(b, k)),
{
    if touches(a, k) {
        let i = choose|i: int| 0 <= i < a.len() && (#[trigger] a[i]).0 == k;
        assert((a + b)[i].0 == k);
    }
    if touches(b, k) {
        let i = choose|i: int| 0 <= i < b.len() && (#[trigger] b[i]).0 == k;
        assert((a + b)[a.len() + i].0 == k);
    }
    if touches(a + b, k) {
        let i = choose|i: int| 0 <= i < (a + b).len() && (#[trigger] (a + b)[i]).0 == k;
        if i < a.len() {
            assert(a[i].0 == k);
        } else {
            assert(b[i - a.len()].0 == k);
        }
    }
}

/// The spec-level value of a section list: (tag, text) pairs.
pub open spec fn sections_view(ss: Seq<TextSection>) -> Seq<(u64, Seq<u8>)> {
    Seq::new(ss.len(), |i: int| (ss[i].tag, ss[i].text@))
}

/// The sections kept among the first `n` old ones: each that received
/// text keeps its tag and takes its accumulated text; the others drop
/// out.
pub open spec fn kept_upto(
    old_secs: Seq<(u64, Seq<u8>)>,
    cs: Seq<(int, Seq<u8>)>,
    n: int,
) -> Seq<(u64, Seq<u8>)>
    decreases n,
{
    if n <= 0 {
        Seq::empty()
    } else {
        kept_upto(old_secs, cs, n - 1) + (if touches(cs, n - 1) {
            seq![(old_secs[n - 1].0, chunks_for(cs, n - 1))]
        } else {
            Seq::empty()
        })
    }
}

/// The reconciled section list: the kept sections in order; if none
/// were kept but sections existed, the first old section survives with
/// empty text, so the list never becomes empty.
pub open spec fn reconciled(
    old_secs: Seq<(u64, Seq<u8>)>,
    lines: Seq<BufferLine>,
) -> Seq<(u64, Seq<u8>)> {
    let cs = all_chunks(lines);
    let k = kept_upto(old_secs, cs, old_secs.len() as int);
    if k.len() == 0 && old_secs.len() > 0 {
        seq![(old_secs[0].0, Seq::<u8>::empty())]
    } else {
        k
    }
}

/// Append `src[lo..hi]` to `dst`.
fn push_subrange(dst: &mut Vec<u8>, src: &Vec<u8>, lo: usize, hi: usize)
    requires
        lo <= hi <= src@.len(),
    ensures
        final(dst)@ == old(dst)@ + src@.subrange(lo as int, hi as int),
{
    let mut j: usize = lo;
    while j < hi
        invariant
            lo <= j <= hi <= src@.len(),
            dst@ == old(dst)@ + src@.subrange(lo as int, j as int),
        decreases hi - j,
    {
        dst.push(src[j]);
        proof {
            assert(old(dst)@ + src@.subrange(lo as int, j + 1) =~= (old(dst)@ + src@.subrange(
                lo as int,
                j as int,
            )).push(src@[j as int]));
        }
        j = j + 1;
    }
}

/// Append the whole of `src` to `dst`.
fn push_all(dst: &mut Vec<u8>, src: &Vec<u8>)
    ensures
        final(dst)@ == old(dst)@ + src@,
{
    push_subrange(dst, src, 0, src.len());
    proof {
        assert(src@.subrange(0, src@.len() as int) =~= src@);
    }
}

/// Append to `dst` everything line `l` hands to section `k`, and
/// report whether the line touched that section at all.
fn gather_line(l: &BufferLine, k: usize, dst: &mut Vec<u8>) -> (hit: bool)
    requires
        line_wf(*l),
    ensures
        final(dst)@ == old(dst)@ + chunks_for(line_chunks(*l), k as int),
        hit == touches(line_chunks(*l), k as int),
{
    let ghost chunk_fn = |i: int| (l.spans@[i].section as int, span_chunk(*l, i));
    let mut pos: usize = 0;
    let mut hit = false;
    let mut j: usize = 0;
    while j < l.spans.len()
        invariant
            line_wf(*l),
            j <= l.spans@.len(),
            pos == span_pos(*l, j as int),
            pos <= l.text@.len(),
            chunk_fn == (|i: int| (l.spans@[i].section as int, span_chunk(*l, i))),
            dst@ == old(dst)@ + chunks_for(Seq::new(j as nat, chunk_fn), k as int),
            hit == touches(Seq::new(j as nat, chunk_fn), k as int),
        decreases l.spans@.len() - j,
    {
        let s = l.spans[j];
        let ghost pre = Seq::new(j as nat, chunk_fn);
        proof {
            assert(Seq::new((j + 1) as nat, chunk_fn) =~= pre.push(chunk_fn(j as int)));
            lemma_chunks_for_push(pre, chunk_fn(j as int), k as int);
            lemma_touches_push(pre, chunk_fn(j as int), k as int);
        }
        if s.section == k {
            hit = true;
            if pos < s.start {
                push_subrange(dst, &l.text, pos, s.start);
            }
            push_subrange(dst, &l.text, s.start, s.end);
            if s.end == l.text.len() {
                push_all(dst, &l.ending);
            }
            proof {
                assert(dst@ =~= old(dst)@ + chunks_for(
                    Seq::new((j + 1) as nat, chunk_fn),
                    k as int,
                ));
            }
        } else {
            proof {
                assert(dst@ =~= old(dst)@ + chunks_for(
                    Seq::new((j + 1) as nat, chunk_fn),
                    k as int,
                ));
            }
        }
        pos = s.end;
        j = j + 1;
    }
    let ghost pre = Seq::new(l.spans@.len(), chunk_fn);
    let emit_trailing: bool = pos < l.text.len() || (l.spans.len() == 0 && l.text.len() == 0
        && l.ending.len() > 0);
    if emit_trailing {
        let last_sec: usize = if l.spans.len() == 0 {
            0
        } else {
            l.spans[l.spans.len() - 1].section
        };
        let ghost trail = (
            line_last_section(*l),
            l.text@.subrange(line_end_pos(*l), l.text@.len() as int) + l.ending@,
        );
        proof {
            assert(line_chunks(*l) =~= pre.push(trail));
            lemma_chunks_for_push(pre, trail, k as int);
            lemma_touches_push(pre, trail, k as int);
        }
        if last_sec == k {
            hit = true;
            push_subrange(dst, &l.text, pos, l.text.len());
            push_all(dst, &l.ending);
            proof {
                assert(dst@ =~= old(dst)@ + chunks_for(line_chunks(*l), k as int));
            }
        } else {
            proof {
                assert(dst@ =~= old(dst)@ + chunks_for(line_chunks(*l), k as int));
            }
        }
    } else {
        proof {
            assert(line_chunks(*l) =~= pre);
        }
    }
    hit
}

/// Gather everything the buffer hands to section `k`: the accumulated
/// text and whether the section was touched at all.
fn gather_section(lines: &Vec<BufferLine>, k: usize) -> (r: (bool, Vec<u8>))
    requires
        lines_wf(lines@),
    ensures
        r.1@ == chunks_for(all_chunks(lines@), k as int),
        r.0 == touches(all_chunks(lines@), k as int),
{
    let mut text: Vec<u8> = Vec::new();
    let mut hit = false;
    let mut li: usize = 0;
    while li < lines.len()
        invariant
            lines_wf(lines@),
            li <= lines@.len(),
            text@ == chunks_for(all_chunks(lines@.take(li as int)), k as int),
            hit == touches(all_chunks(lines@.take(li as int)), k as int),
        decreases lines@.len() - li,
    {
        let ghost pre = all_chunks(lines@.take(li as int));
        let line_hit = gather_line(&lines[li], k, &mut text);
        hit = hit || line_hit;
        proof {
            let taken = lines@.take(li + 1);
            assert(taken.drop_last() =~= lines@.take(li as int));
            assert(taken.last() == lines@[li as int]);
            assert(all_chunks(taken) == pre + line_chunks(lines@[li as int]));
            lemma_chunks_for_concat(pre, line_chunks(lines@[li as int]), k as int);
            lemma_touches_concat(pre, line_chunks(lines@[li as int]), k as int);
        }
        li = li + 1;
    }
    proof {
        assert(lines@.take(lines@.len() as int) =~= lines@);
    }
    (hit, text)
}

/// Reconcile the buffer's per-line styled spans back into the external
/// section list: each section that received text takes it, the others
/// are removed, and a text node never loses its last section.
pub fn reconcile(lines: &Vec<BufferLine>, sections: &mut Vec<TextSection>)
    requires
        lines_wf(lines@),
    ensures
        sections_view(final(sections)@) == reconciled(
            sections_view(old(sections)@),
            lines@,
        ),
{
    let ghost old_view = sections_view(old(sections)@);
    let ghost cs = all_chunks(lines@);
    let mut out: Vec<TextSection> = Vec::new();
    let mut i: usize = 0;
    while i < sections.len()
        invariant
            lines_wf(lines@),
            *sections == *old(sections),
            i <= sections@.len(),
            old_view == sections_view(old(sections)@),
            cs == all_chunks(lines@),
            sections_view(out@) == kept_upto(old_view, cs, i as int),
        decreases sections@.len() - i,
    {
        let (present, text) = gather_section(lines, i);
        if present {
            let tag = sections[i].tag;
            out.push(TextSection { tag, text });
        }
        proof {
            assert(sections_view(out@) =~= kept_upto(old_view, cs, i + 1));
        }
        i = i + 1;
    }
    if out.len() == 0 && sections.len() > 0 {
        let tag = sections[0].tag;
        out.push(TextSection { tag, text: Vec::new() });
        proof {
            assert(kept_upto(old_view, cs, old_view.len() as int).len() == 0);
            assert(sections_view(out@) =~= seq![(old_view[0].0, Seq::<u8>::empty())]);
        }
    }
    *sections = out;
    proof {
        assert(sections_view(sections@) =~= reconciled(old_view, lines@));
    }
}

/// Check one line's span invariant at run time.
pub fn check_line_wf(l: &BufferLine) -> (b: bool)
    ensures
        b == line_wf(*l),
{
    let mut j: usize = 0;
    while j < l.spans.len()
        invariant
            j <= l.spans@.len(),
            forall|i: int|
                0 <= i < j ==> (#[trigger] l.spans@[i]).start <= l.spans@[i].end
                    <= l.text@.len(),
            forall|i: int|
                0 < i < j ==> (#[trigger] l.spans@[i]).start >= l.spans@[i - 1].end,
        decreases l.spans@.len() - j,
    {
        let s = l.spans[j];
        if !(s.start <= s.end && s.end <= l.text.len()) {
            return false;
        }
        if j > 0 {
            if s.start < l.spans[j - 1].end {
                return false;
            }
        }
        j = j + 1;
    }
    true
}

/// Check the whole buffer's span invariant at run time.
pub fn check_lines_wf(lines: &Vec<BufferLine>) -> (b: bool)
    ensures
        b == lines_wf(lines@),
{
    let mut i: usize = 0;
    while i < lines.len()
        invariant
            i <= lines@.len(),
            forall|j: int| 0 <= j < i ==> line_wf(#[trigger] lines@[j]),
        decreases lines@.len() - i,
    {
        if !check_line_wf(&lines[i]) {
            return false;
        }
        i = i + 1;
    }
    true
}

/// A text node never loses its last section: reconciling a non-empty
/// section list always leaves at least one section, however much of
/// the buffer was deleted.
pub proof fn lemma_sections_never_vanish(old_secs: Seq<(u64, Seq<u8>)>, lines: Seq<BufferLine>)
    requires
        old_secs.len() > 0,
    ensures
        reconciled(old_secs, lines).len() >= 1,
{
}

} // verus!
