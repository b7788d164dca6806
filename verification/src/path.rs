//! Splitting a path into the subpaths that are drawn one by one.

use vstd::prelude::*;

verus! {

/// The kind of a path segment: what subpath splitting reads of it.
#[derive(Clone, Copy, PartialEq, Eq, Structural)]
pub enum PathSegmentKind {
    MoveTo,
    LineTo,
    CurveTo,
    ClosePath,
}

/// Where the subpath that starts at `start` ends, scanning from `i`: at
/// the next `MoveTo` after `start`, just after the next `ClosePath`, or at
/// the end of the path.
pub open spec fn subpath_end_from(segs: Seq<PathSegmentKind>, start: int, i: int) -> int
    decreases segs.len() - i,
{
    if i >= segs.len() {
        segs.len() as int
    } else if segs[i] == PathSegmentKind::MoveTo && i != start {
        i
    } else if segs[i] == PathSegmentKind::ClosePath {
        i + 1
    } else {
        subpath_end_from(segs, start, i + 1)
    }
}

/// The end of the subpath that starts at `start`.
pub open spec fn subpath_end(segs: Seq<PathSegmentKind>, start: int) -> int {
    subpath_end_from(segs, start, start)
}

proof fn lemma_subpath_end_from_bounds(segs: Seq<PathSegmentKind>, start: int, i: int)
    requires
        0 <= start <= i,
    ensures
        i <= subpath_end_from(segs, start, i) <= segs.len() || (i > segs.len()
            && subpath_end_from(segs, start, i) == segs.len()),
        i < segs.len() && i == start ==> subpath_end_from(segs, start, i) > i,
        i < segs.len() ==> subpath_end_from(segs, start, i) >= i,
    decreases segs.len() - i,
{
    if i < segs.len() {
        lemma_subpath_end_from_bounds(segs, start, i + 1);
    }
}

/// A subpath is never empty before the end of the path, and never runs
/// past it.
pub proof fn lemma_subpath_end_bounds(segs: Seq<PathSegmentKind>, start: int)
    requires
        0 <= start <= segs.len(),
    ensures
        start <= subpath_end(segs, start) <= segs.len(),
        start < segs.len() ==> start < subpath_end(segs, start),
{
    lemma_subpath_end_from_bounds(segs, start, start);
}

proof fn lemma_subpath_end_from_shape(segs: Seq<PathSegmentKind>, start: int, i: int, j: int)
    requires
        0 <= start <= i <= j < subpath_end_from(segs, start, i),
        i < segs.len(),
    ensures
        j != start ==> segs[j] != PathSegmentKind::MoveTo,
        j + 1 < subpath_end_from(segs, start, i) ==> segs[j] != PathSegmentKind::ClosePath,
    decreases segs.len() - i,
{
    lemma_subpath_end_from_bounds(segs, start, i);
    if j > i {
        lemma_subpath_end_from_bounds(segs, start, i + 1);
        lemma_subpath_end_from_shape(segs, start, i + 1, j);
    }
}

/// A subpath holds a `MoveTo` only as its first segment and a `ClosePath`
/// only as its last: it is one figure.
pub proof fn lemma_subpath_shape(segs: Seq<PathSegmentKind>, start: int, j: int)
    requires
        0 <= start <= j < subpath_end(segs, start),
    ensures
        j != start ==> segs[j] != PathSegmentKind::MoveTo,
        j + 1 < subpath_end(segs, start) ==> segs[j] != PathSegmentKind::ClosePath,
{
    lemma_subpath_end_from_bounds(segs, start, start);
    lemma_subpath_end_from_shape(segs, start, start, j);
}

proof fn lemma_subpath_end_from_stops(segs: Seq<PathSegmentKind>, start: int, i: int)
    requires
        0 <= start <= i,
        start < segs.len(),
    ensures
        ({
            let e = subpath_end_from(segs, start, i);
            e == segs.len() || (e > start && segs[e] == PathSegmentKind::MoveTo) || (e > start
                && segs[e - 1] == PathSegmentKind::ClosePath)
        }),
    decreases segs.len() - i,
{
    lemma_subpath_end_from_bounds(segs, start, i);
    if i < segs.len() {
        lemma_subpath_end_from_stops(segs, start, i + 1);
    }
}

/// A subpath runs as far as it can: it ends at the end of the path, just
/// before the next `MoveTo`, or just after a `ClosePath`.
pub proof fn lemma_subpath_is_maximal(segs: Seq<PathSegmentKind>, start: int)
    requires
        0 <= start < segs.len(),
    ensures
        ({
            let e = subpath_end(segs, start);
            e == segs.len() || (e > start && segs[e] == PathSegmentKind::MoveTo) || (e > start
                && segs[e - 1] == PathSegmentKind::ClosePath)
        }),
{
    lemma_subpath_end_from_stops(segs, start, start);
}

/// The end of the subpath that starts at `start`: the subpath is
/// `segments[start..end]`, empty when `start` is the path's end.
pub fn get_subpath(start: usize, segments: &[PathSegmentKind]) -> (end: usize)
    requires
        start <= segments@.len(),
    ensures
        end == subpath_end(segments@, start as int),
        start <= end <= segments@.len(),
{
    proof {
        lemma_subpath_end_bounds(segments@, start as int);
    }
    let mut i = start;
    while i < segments.len()
        invariant
            start <= i <= segments@.len(),
            subpath_end(segments@, start as int) == subpath_end_from(
                segments@,
                start as int,
                i as int,
            ),
        decreases segments@.len() - i,
    {
        match segments[i] {
            PathSegmentKind::MoveTo => {
                if i != start {
                    return i;
                }
            },
            PathSegmentKind::ClosePath => {
                return i + 1;
            },
            _ => {},
        }
        i += 1;
    }
    i
}

/// `ranges` cuts `segs` into consecutive subpaths that cover it.
pub open spec fn is_subpath_split(segs: Seq<PathSegmentKind>, ranges: Seq<(usize, usize)>) -> bool {
    &&& segs.len() == 0 ==> ranges.len() == 0
    &&& segs.len() > 0 ==> ranges.len() > 0 && ranges[0].0 == 0 && ranges.last().1
        == segs.len()
    &&& forall|k: int|
        0 <= k < ranges.len() ==> (#[trigger] ranges[k]).0 < ranges[k].1 && ranges[k].1 as int
            == subpath_end(segs, ranges[k].0 as int)
    &&& forall|k: int| 0 <= k < ranges.len() - 1 ==> (#[trigger] ranges[k]).1 == ranges[k + 1].0
}

/// The subpaths of a path, in order: each as the range of its segments.
/// Drawing a path draws these one after the other.
pub fn split_subpaths(segments: &[PathSegmentKind]) -> (ranges: Vec<(usize, usize)>)
    ensures
        is_subpath_split(segments@, ranges@),
{
    let mut ranges: Vec<(usize, usize)> = Vec::new();
    let mut i: usize = 0;
    loop
        invariant
            i <= segments@.len(),
            ranges@.len() == 0 ==> i == 0,
            ranges@.len() > 0 ==> ranges@[0].0 == 0 && ranges@.last().1 == i,
            forall|k: int|
                0 <= k < ranges@.len() ==> (#[trigger] ranges@[k]).0 < ranges@[k].1
                    && ranges@[k].1 as int == subpath_end(segments@, ranges@[k].0 as int),
            forall|k: int|
                0 <= k < ranges@.len() - 1 ==> (#[trigger] ranges@[k]).1 == ranges@[k + 1].0,
        decreases segments@.len() - i,
    {
        let end = get_subpath(i, segments);
        if end == i {
            proof {
                lemma_subpath_end_bounds(segments@, i as int);
                assert(i == segments@.len());
            }
            return ranges;
        }
        ranges.push((i, end));
        i = end;
    }
}

} // verus!
