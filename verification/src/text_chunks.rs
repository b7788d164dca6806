//! Grouping the `tspan`s of a `text` element into text chunks.
//!
//! A chunk is a run of spans laid out from one position. The `text`
//! element opens the first chunk; a `tspan` that sets any of `x`, `y`,
//! `dx` or `dy` opens a new one. A `tspan` without a text child is
//! skipped.

use vstd::prelude::*;

verus! {

/// What chunking reads of a `tspan`.
#[derive(Clone, Copy, PartialEq, Eq, Structural)]
pub struct TspanLayout {
    /// The `tspan` has a text child.
    pub has_text: bool,
    /// The `tspan` sets one of `x`, `y`, `dx` or `dy`.
    pub has_position: bool,
}

/// The element whose position and anchor a chunk takes.
#[derive(Clone, Copy, PartialEq, Eq, Structural)]
pub enum ChunkStart {
    /// The `text` element itself.
    Text,
    /// The `tspan` at this index.
    Tspan(usize),
}

/// A text chunk: where it starts and the indices of its spans' `tspan`s.
pub struct TextChunk {
    pub start: ChunkStart,
    pub spans: Vec<usize>,
}

impl View for TextChunk {
    type V = (ChunkStart, Seq<usize>);

    open spec fn view(&self) -> (ChunkStart, Seq<usize>) {
        (self.start, self.spans@)
    }
}

/// The chunks of a `text` element whose `tspan`s are `tspans`.
pub open spec fn chunks_of(tspans: Seq<TspanLayout>) -> Seq<(ChunkStart, Seq<usize>)>
    decreases tspans.len(),
{
    if tspans.len() == 0 {
        seq![(ChunkStart::Text, Seq::<usize>::empty())]
    } else {
        let prev = chunks_of(tspans.drop_last());
        let i = (tspans.len() - 1) as usize;
        let t = tspans.last();
        if !t.has_text {
            prev
        } else {
            let c = if t.has_position {
                prev.push((ChunkStart::Tspan(i), Seq::<usize>::empty()))
            } else {
                prev
            };
            c.update(c.len() - 1, (c.last().0, c.last().1.push(i)))
        }
    }
}

/// The indices of the `tspan`s that have a text child, in order.
pub open spec fn texted_indices(tspans: Seq<TspanLayout>) -> Seq<usize>
    decreases tspans.len(),
{
    if tspans.len() == 0 {
        Seq::empty()
    } else if tspans.last().has_text {
        texted_indices(tspans.drop_last()).push((tspans.len() - 1) as usize)
    } else {
        texted_indices(tspans.drop_last())
    }
}

/// The spans of all chunks, one chunk after the other.
pub open spec fn all_spans(chunks: Seq<(ChunkStart, Seq<usize>)>) -> Seq<usize>
    decreases chunks.len(),
{
    if chunks.len() == 0 {
        Seq::empty()
    } else {
        all_spans(chunks.drop_last()) + chunks.last().1
    }
}

proof fn lemma_chunks_of_nonempty(tspans: Seq<TspanLayout>)
    ensures
        chunks_of(tspans).len() >= 1,
        chunks_of(tspans)[0].0 == ChunkStart::Text,
    decreases tspans.len(),
{
    if tspans.len() > 0 {
        lemma_chunks_of_nonempty(tspans.drop_last());
    }
}

/// There is always a first chunk, and the `text` element starts it.
pub proof fn lemma_first_chunk_is_text(tspans: Seq<TspanLayout>)
    ensures
        chunks_of(tspans).len() >= 1,
        chunks_of(tspans)[0].0 == ChunkStart::Text,
{
    lemma_chunks_of_nonempty(tspans);
}

/// Every chunk after the first starts at a `tspan` that has text and sets
/// a position, and that `tspan` is the chunk's first span.
pub proof fn lemma_later_chunks_start_at_positioned_tspans(tspans: Seq<TspanLayout>, k: int)
    requires
        tspans.len() <= usize::MAX,
        1 <= k < chunks_of(tspans).len(),
    ensures
        chunks_of(tspans)[k].0 matches ChunkStart::Tspan(j) && j < tspans.len()
            && tspans[j as int].has_text && tspans[j as int].has_position
            && chunks_of(tspans)[k].1.len() >= 1 && chunks_of(tspans)[k].1[0] == j,
    decreases tspans.len(),
{
    lemma_chunks_of_nonempty(tspans);
    if tspans.len() == 0 {
    } else {
        let prev_tspans = tspans.drop_last();
        let prev = chunks_of(prev_tspans);
        let t = tspans.last();
        let i = (tspans.len() - 1) as usize;
        assert(i == tspans.len() - 1);
        assert(tspans[i as int] == t);
        lemma_chunks_of_nonempty(prev_tspans);
        if !t.has_text {
            lemma_later_chunks_start_at_positioned_tspans(prev_tspans, k);
        } else if t.has_position {
            if k < prev.len() {
                lemma_later_chunks_start_at_positioned_tspans(prev_tspans, k);
                let j = prev[k].0->0;
                assert(tspans[j as int] == prev_tspans[j as int]);
            }
        } else {
            lemma_later_chunks_start_at_positioned_tspans(prev_tspans, k);
            let j = prev[k].0->0;
            assert(tspans[j as int] == prev_tspans[j as int]);
        }
    }
}

/// How many `tspan`s have text and set a position.
pub open spec fn positioned_count(tspans: Seq<TspanLayout>) -> nat
    decreases tspans.len(),
{
    if tspans.len() == 0 {
        0
    } else {
        positioned_count(tspans.drop_last()) + if tspans.last().has_text
            && tspans.last().has_position {
            1nat
        } else {
            0nat
        }
    }
}

/// There is one chunk for the `text` element and one more for each
/// `tspan` that has text and sets a position.
pub proof fn lemma_chunk_count(tspans: Seq<TspanLayout>)
    ensures
        chunks_of(tspans).len() == 1 + positioned_count(tspans),
    decreases tspans.len(),
{
    if tspans.len() > 0 {
        lemma_chunk_count(tspans.drop_last());
        lemma_chunks_of_nonempty(tspans.drop_last());
    }
}

/// Every `tspan` that has text and sets a position opens a chunk of its
/// own: some chunk starts at it.
pub proof fn lemma_positioned_tspan_opens_chunk(tspans: Seq<TspanLayout>, j: int)
    requires
        tspans.len() <= usize::MAX,
        0 <= j < tspans.len(),
        tspans[j].has_text,
        tspans[j].has_position,
    ensures
        exists|k: int|
            0 <= k < chunks_of(tspans).len() && #[trigger] chunks_of(tspans)[k].0
                == ChunkStart::Tspan(j as usize),
    decreases tspans.len(),
{
    let prev_tspans = tspans.drop_last();
    let prev = chunks_of(prev_tspans);
    let i = (tspans.len() - 1) as usize;
    let t = tspans.last();
    lemma_chunks_of_nonempty(prev_tspans);
    let c = if t.has_text && t.has_position {
        prev.push((ChunkStart::Tspan(i), Seq::<usize>::empty()))
    } else {
        prev
    };
    if j == i {
        assert(tspans[j] == t);
        let k = c.len() - 1;
        assert(chunks_of(tspans)[k].0 == ChunkStart::Tspan(j as usize));
    } else {
        assert(prev_tspans[j] == tspans[j]);
        lemma_positioned_tspan_opens_chunk(prev_tspans, j);
        let k = choose|k: int|
            0 <= k < prev.len() && #[trigger] prev[k].0 == ChunkStart::Tspan(j as usize);
        assert(c[k] == prev[k]);
        if t.has_text {
            assert(chunks_of(tspans)[k].0 == c[k].0);
        }
        assert(chunks_of(tspans)[k].0 == ChunkStart::Tspan(j as usize));
    }
}

proof fn lemma_all_spans_update_last(
    chunks: Seq<(ChunkStart, Seq<usize>)>,
    start: ChunkStart,
    i: usize,
)
    requires
        chunks.len() >= 1,
    ensures
        all_spans(chunks.update(chunks.len() - 1, (start, chunks.last().1.push(i)))) == all_spans(
            chunks,
        ).push(i),
{
    let c2 = chunks.update(chunks.len() - 1, (start, chunks.last().1.push(i)));
    assert(c2.drop_last() =~= chunks.drop_last());
    assert(all_spans(chunks.drop_last()) + chunks.last().1.push(i) =~= (all_spans(
        chunks.drop_last(),
    ) + chunks.last().1).push(i));
}

proof fn lemma_all_spans_push_empty(chunks: Seq<(ChunkStart, Seq<usize>)>, start: ChunkStart)
    ensures
        all_spans(chunks.push((start, Seq::<usize>::empty()))) == all_spans(chunks),
{
    let c2 = chunks.push((start, Seq::<usize>::empty()));
    assert(c2.drop_last() =~= chunks);
    assert(all_spans(chunks) + Seq::<usize>::empty() =~= all_spans(chunks));
}

/// Every `tspan` with text becomes exactly one span, and the spans come
/// in document order: the chunks' spans, one chunk after the other, are
/// the indices of the `tspan`s that have text.
pub proof fn lemma_spans_are_texted_tspans_in_order(tspans: Seq<TspanLayout>)
    ensures
        all_spans(chunks_of(tspans)) == texted_indices(tspans),
    decreases tspans.len(),
{
    if tspans.len() == 0 {
        let c = chunks_of(tspans);
        let none = Seq::<(ChunkStart, Seq<usize>)>::empty();
        assert(c.drop_last() =~= none);
        assert(all_spans(none) == Seq::<usize>::empty());
        assert(all_spans(c) =~= Seq::<usize>::empty());
    } else {
        let prev_tspans = tspans.drop_last();
        let prev = chunks_of(prev_tspans);
        let i = (tspans.len() - 1) as usize;
        let t = tspans.last();
        lemma_spans_are_texted_tspans_in_order(prev_tspans);
        lemma_chunks_of_nonempty(prev_tspans);
        if t.has_text {
            if t.has_position {
                let c = prev.push((ChunkStart::Tspan(i), Seq::<usize>::empty()));
                lemma_all_spans_push_empty(prev, ChunkStart::Tspan(i));
                lemma_all_spans_update_last(c, c.last().0, i);
            } else {
                lemma_all_spans_update_last(prev, prev.last().0, i);
            }
        }
    }
}

/// Groups the `tspan`s of a `text` element into chunks: the `text`
/// element starts the first chunk, each `tspan` with text and a position
/// starts a new one, and each `tspan` with text is a span of the chunk
/// open at that point.
pub fn convert_chunks(tspans: &[TspanLayout]) -> (r: Option<Vec<TextChunk>>)
    ensures
        r matches Some(chunks) && chunks@.len() == chunks_of(tspans@).len() && forall|k: int|
            0 <= k < chunks@.len() ==> (#[trigger] chunks@[k])@ == chunks_of(tspans@)[k],
{
    let mut done: Vec<TextChunk> = Vec::new();
    let mut current = TextChunk { start: ChunkStart::Text, spans: Vec::new() };
    let mut i: usize = 0;
    while i < tspans.len()
        invariant
            i <= tspans@.len(),
            done@.len() + 1 == chunks_of(tspans@.take(i as int)).len(),
            forall|k: int|
                0 <= k < done@.len() ==> (#[trigger] done@[k])@ == chunks_of(
                    tspans@.take(i as int),
                )[k],
            current@ == chunks_of(tspans@.take(i as int)).last(),
        decreases tspans@.len() - i,
    {
        let ghost before = tspans@.take(i as int);
        proof {
            assert(tspans@.take(i + 1).drop_last() =~= before);
            assert(tspans@.take(i + 1).last() == tspans@[i as int]);
            lemma_chunks_of_nonempty(before);
        }
        let t = tspans[i];
        if t.has_text {
            if t.has_position {
                let prev = current;
                current = TextChunk { start: ChunkStart::Tspan(i), spans: Vec::new() };
                done.push(prev);
            }
            current.spans.push(i);
        }
        i += 1;
    }
    proof {
        assert(tspans@.take(i as int) =~= tspans@);
    }
    done.push(current);
    Some(done)
}

} // verus!
