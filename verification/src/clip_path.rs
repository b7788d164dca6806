//! Clip-path conversion over the elements that `clip-path` attributes
//! reference.
//!
//! A referenced element yields a clip path when it is a `clipPath`
//! element with a valid transform, the clip path that it references in
//! turn (if any) yields one, and some of its children remain once they
//! are converted. Converted clip paths are cached by element.

use vstd::prelude::*;

verus! {

/// A coordinate system of a clip path's content.
#[derive(Clone, Copy, PartialEq, Eq, Structural)]
pub enum Units {
    UserSpaceOnUse,
    ObjectBoundingBox,
}

/// What clip-path conversion reads of a referenced element.
pub struct ClipPathElement {
    /// The element's id.
    pub id: String,
    /// The element is a `clipPath`.
    pub is_clip_path: bool,
    /// Its `transform` is valid.
    pub valid_transform: bool,
    /// Its `clipPathUnits`, when set.
    pub units: Option<Units>,
    /// The element that its own `clip-path` attribute references.
    pub link: Option<usize>,
    /// Converting its children leaves some.
    pub has_children: bool,
}

/// A converted clip path, but its transform and children.
pub struct ClipPathInfo {
    /// The id of the element it was converted from.
    pub id: String,
    /// Its content units.
    pub units: Units,
    /// The element whose clip path clips this one in turn.
    pub clip_path: Option<usize>,
}

/// Every reference points to an element listed before the one that holds
/// it. The SVG tree removes reference cycles before conversion, so the
/// elements can always be listed so.
pub open spec fn links_ordered(elems: Seq<ClipPathElement>) -> bool {
    forall|i: int|
        0 <= i < elems.len() ==> match (#[trigger] elems[i]).link {
            Some(j) => j < i,
            None => true,
        }
}

/// The element is a `clipPath` with a valid transform: conversion does
/// not give it up before looking further.
pub open spec fn accepted(e: ClipPathElement) -> bool {
    e.is_clip_path && e.valid_transform
}

/// Whether the element at `i` yields a clip path.
pub open spec fn clip_path_valid(elems: Seq<ClipPathElement>, i: int) -> bool
    decreases i,
{
    if !(0 <= i < elems.len()) {
        false
    } else {
        let e = elems[i];
        &&& accepted(e)
        &&& match e.link {
            Some(j) => j < i && clip_path_valid(elems, j as int),
            None => true,
        }
        &&& e.has_children
    }
}

/// The element at `k` is the element at `i` or is referenced from it,
/// directly or through other references.
pub open spec fn reaches(elems: Seq<ClipPathElement>, i: int, k: int) -> bool
    decreases i,
{
    if !(0 <= i < elems.len()) {
        false
    } else if k == i {
        true
    } else {
        match elems[i].link {
            Some(j) => j < i && reaches(elems, j as int, k),
            None => false,
        }
    }
}

/// A clip path's units are the element's `clipPathUnits` when it sets
/// them, and user space when it does not.
pub proof fn lemma_units_follow_attribute(e: ClipPathElement)
    ensures
        e.units matches Some(u) ==> units_of(e) == u,
        e.units is None ==> units_of(e) == Units::UserSpaceOnUse,
{
}

/// Every element that the cache marks as converted yields a clip path.
pub open spec fn cache_sound(elems: Seq<ClipPathElement>, cache: Seq<bool>) -> bool {
    &&& cache.len() == elems.len()
    &&& forall|k: int| 0 <= k < cache.len() && #[trigger] cache[k] ==> clip_path_valid(elems, k)
}

/// The units of a clip path: its `clipPathUnits`, else user space.
pub open spec fn units_of(e: ClipPathElement) -> Units {
    match e.units {
        Some(u) => u,
        None => Units::UserSpaceOnUse,
    }
}

proof fn lemma_reaches_link(elems: Seq<ClipPathElement>, i: int, j: usize, k: int)
    requires
        0 <= i < elems.len(),
        elems[i].link == Some(j),
        j < i,
        reaches(elems, j as int, k),
    ensures
        reaches(elems, i, k),
{
}

/// Converts the clip path that the element at `i` defines.
///
/// An element that is not a `clipPath` or has an invalid transform is
/// given up at once, and a cached one is taken from the cache; neither
/// changes the cache. Otherwise only the elements reached from `i`
/// through references are newly marked as converted.
pub fn convert_clip_path(elems: &[ClipPathElement], i: usize, cache: &mut Vec<bool>) -> (r: Option<
    ClipPathInfo,
>)
    requires
        i < elems@.len(),
        links_ordered(elems@),
        cache_sound(elems@, old(cache)@),
    ensures
        r is Some == clip_path_valid(elems@, i as int),
        r matches Some(c) ==> c.id@ == elems@[i as int].id@ && c.units == units_of(elems@[i as int])
            && c.clip_path == elems@[i as int].link,
        r matches Some(c) ==> (elems@[i as int].units matches Some(u) ==> c.units == u),
        r matches Some(c) ==> (elems@[i as int].units is None ==> c.units == Units::UserSpaceOnUse),
        cache_sound(elems@, final(cache)@),
        !accepted(elems@[i as int]) || old(cache)@[i as int] ==> final(cache)@ == old(cache)@,
        forall|k: int|
            0 <= k < old(cache)@.len() && #[trigger] final(cache)@[k] != old(cache)@[k] ==> !old(
                cache,
            )@[k] && reaches(elems@, i as int, k),
        r is Some ==> final(cache)@[i as int],
    decreases i,
{
    let e = &elems[i];
    assert(match elems@[i as int].link {
        Some(j) => j < i,
        None => true,
    });
    if !e.is_clip_path || !e.valid_transform {
        return None;
    }
    let units = match e.units {
        Some(u) => u,
        None => Units::UserSpaceOnUse,
    };
    if cache[i] {
        return Some(ClipPathInfo { id: e.id.clone(), units, clip_path: e.link });
    }
    match e.link {
        Some(j) => {
            let linked = convert_clip_path(elems, j, cache);
            proof {
                assert forall|k: int|
                    0 <= k < old(cache)@.len() && #[trigger] cache@[k] != old(cache)@[k] implies reaches(
                    elems@,
                    i as int,
                    k,
                ) by {
                    lemma_reaches_link(elems@, i as int, j, k);
                }
            }
            if linked.is_none() {
                return None;
            }
        },
        None => {},
    }
    if e.has_children {
        let ghost before = cache@;
        cache.set(i, true);
        proof {
            assert forall|k: int| 0 <= k < cache@.len() && #[trigger] cache@[k] implies clip_path_valid(
                elems@,
                k,
            ) by {
                if k != i {
                    assert(before[k]);
                }
            }
        }
        Some(ClipPathInfo { id: e.id.clone(), units, clip_path: e.link })
    } else {
        None
    }
}

/// An element yields no clip path when it is not a `clipPath`, when its
/// transform is invalid, when none of its children remain, or when the
/// clip path it references yields none; an element with none of these
/// faults whose reference (if any) yields a clip path yields one.
pub proof fn lemma_clip_path_validity(elems: Seq<ClipPathElement>, i: int)
    requires
        links_ordered(elems),
        0 <= i < elems.len(),
    ensures
        !elems[i].is_clip_path ==> !clip_path_valid(elems, i),
        !elems[i].valid_transform ==> !clip_path_valid(elems, i),
        !elems[i].has_children ==> !clip_path_valid(elems, i),
        elems[i].link matches Some(j) ==> (!clip_path_valid(elems, j as int) ==> !clip_path_valid(
            elems,
            i,
        )),
        elems[i].is_clip_path && elems[i].valid_transform && elems[i].has_children && (match elems[i].link {
            Some(j) => clip_path_valid(elems, j as int),
            None => true,
        }) ==> clip_path_valid(elems, i),
{
    assert(match elems[i].link {
        Some(j) => j < i,
        None => true,
    });
}

} // verus!
