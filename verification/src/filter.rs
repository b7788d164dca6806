//! Filter primitives whose data is not numeric.

use vstd::prelude::*;

use crate::strings::str_eq;

verus! {

/// A morphology operation.
#[derive(Clone, Copy, PartialEq, Eq, Structural)]
pub enum MorphologyOperator {
    Erode,
    Dilate,
}

/// The operation of an `feMorphology` `operator` attribute: `dilate`
/// dilates; any other value, or none, erodes.
pub fn convert_morphology_operator(value: Option<&str>) -> (r: MorphologyOperator)
    ensures
        r == (if value matches Some(v) && v@ == "dilate"@ {
            MorphologyOperator::Dilate
        } else {
            MorphologyOperator::Erode
        }),
{
    let s = match value {
        Some(v) => v,
        None => "erode",
    };
    if str_eq(s, "dilate") {
        proof {
            reveal_strlit("dilate");
            reveal_strlit("erode");
            assert("dilate"@.len() != "erode"@.len());
        }
        MorphologyOperator::Dilate
    } else {
        MorphologyOperator::Erode
    }
}

/// An input of a filter primitive.
pub enum FilterInput {
    SourceGraphic,
    SourceAlpha,
    BackgroundImage,
    BackgroundAlpha,
    FillPaint,
    StrokePaint,
    /// The result of an earlier primitive with this name.
    Reference(String),
}

/// A filter input, with a reference's name as characters.
pub enum FilterInputView {
    SourceGraphic,
    SourceAlpha,
    BackgroundImage,
    BackgroundAlpha,
    FillPaint,
    StrokePaint,
    Reference(Seq<char>),
}

impl View for FilterInput {
    type V = FilterInputView;

    open spec fn view(&self) -> FilterInputView {
        match self {
            FilterInput::SourceGraphic => FilterInputView::SourceGraphic,
            FilterInput::SourceAlpha => FilterInputView::SourceAlpha,
            FilterInput::BackgroundImage => FilterInputView::BackgroundImage,
            FilterInput::BackgroundAlpha => FilterInputView::BackgroundAlpha,
            FilterInput::FillPaint => FilterInputView::FillPaint,
            FilterInput::StrokePaint => FilterInputView::StrokePaint,
            FilterInput::Reference(name) => FilterInputView::Reference(name@),
        }
    }
}

/// The input that an `in` value names: one of the six keywords, or else
/// a reference to a result of that name.
pub open spec fn parse_in_of(s: Seq<char>) -> FilterInputView {
    if s == "SourceGraphic"@ {
        FilterInputView::SourceGraphic
    } else if s == "SourceAlpha"@ {
        FilterInputView::SourceAlpha
    } else if s == "BackgroundImage"@ {
        FilterInputView::BackgroundImage
    } else if s == "BackgroundAlpha"@ {
        FilterInputView::BackgroundAlpha
    } else if s == "FillPaint"@ {
        FilterInputView::FillPaint
    } else if s == "StrokePaint"@ {
        FilterInputView::StrokePaint
    } else {
        FilterInputView::Reference(s)
    }
}

/// The input used when `in` is absent or names no earlier result: the
/// previous primitive's result, or the source graphic for the first
/// primitive.
pub open spec fn fallback_input_of(previous: Seq<Seq<char>>) -> FilterInputView {
    if previous.len() == 0 {
        FilterInputView::SourceGraphic
    } else {
        FilterInputView::Reference(previous.last())
    }
}

/// The input of a primitive whose `in` value is `value`, after the
/// primitives whose results are named `previous`.
pub open spec fn resolve_input_of(value: Option<Seq<char>>, previous: Seq<Seq<char>>) -> FilterInputView {
    match value {
        None => fallback_input_of(previous),
        Some(s) => match parse_in_of(s) {
            FilterInputView::Reference(name) => if previous.contains(name) {
                FilterInputView::Reference(name)
            } else {
                fallback_input_of(previous)
            },
            other => other,
        },
    }
}

/// A resolved input refers only to a result of an earlier primitive: a
/// name that is not such a result is never kept. Without `in`, the input
/// is the previous primitive's result, or the source graphic for the
/// first primitive. A name of an earlier result that is not a keyword
/// refers to that result.
pub proof fn lemma_resolved_references_exist(value: Option<Seq<char>>, previous: Seq<Seq<char>>)
    ensures
        resolve_input_of(value, previous) matches FilterInputView::Reference(n) ==> previous.contains(
            n,
        ),
        value is None && previous.len() > 0 ==> resolve_input_of(value, previous)
            == FilterInputView::Reference(previous.last()),
        value is None && previous.len() == 0 ==> resolve_input_of(value, previous)
            == FilterInputView::SourceGraphic,
        value matches Some(s) ==> (previous.contains(s) && parse_in_of(s) == FilterInputView::Reference(s)
            ==> resolve_input_of(value, previous) == FilterInputView::Reference(s)),
{
    if previous.len() > 0 {
        assert(previous[previous.len() - 1] == previous.last());
    }
}

/// The names of the results of earlier primitives.
pub open spec fn result_names(previous: Seq<String>) -> Seq<Seq<char>> {
    previous.map_values(|r: String| r@)
}

fn fallback_input(previous: &[String]) -> (r: FilterInput)
    ensures
        r@ == fallback_input_of(result_names(previous@)),
{
    if previous.len() == 0 {
        FilterInput::SourceGraphic
    } else {
        FilterInput::Reference(previous[previous.len() - 1].clone())
    }
}

fn has_result(previous: &[String], name: &str) -> (r: bool)
    ensures
        r == result_names(previous@).contains(name@),
{
    let mut i: usize = 0;
    while i < previous.len()
        invariant
            i <= previous@.len(),
            forall|k: int| 0 <= k < i ==> previous@[k]@ != name@,
        decreases previous@.len() - i,
    {
        if str_eq(previous[i].as_str(), name) {
            assert(result_names(previous@)[i as int] == name@);
            return true;
        }
        i += 1;
    }
    proof {
        if result_names(previous@).contains(name@) {
            let k = choose|k: int|
                0 <= k < result_names(previous@).len() && result_names(previous@)[k] == name@;
            assert(previous@[k]@ == name@);
        }
    }
    false
}

/// Resolves the input of a filter primitive from its `in` value, given
/// the result names of the primitives before it: a keyword names itself;
/// a name of an earlier result refers to it; an unknown name, or no
/// value, falls back to the previous result, or to the source graphic
/// for the first primitive.
pub fn resolve_input(value: Option<&str>, previous: &[String]) -> (r: FilterInput)
    ensures
        r@ == resolve_input_of(
            match value {
                Some(v) => Some(v@),
                None => None,
            },
            result_names(previous@),
        ),
{
    match value {
        None => fallback_input(previous),
        Some(s) => {
            if str_eq(s, "SourceGraphic") {
                FilterInput::SourceGraphic
            } else if str_eq(s, "SourceAlpha") {
                FilterInput::SourceAlpha
            } else if str_eq(s, "BackgroundImage") {
                FilterInput::BackgroundImage
            } else if str_eq(s, "BackgroundAlpha") {
                FilterInput::BackgroundAlpha
            } else if str_eq(s, "FillPaint") {
                FilterInput::FillPaint
            } else if str_eq(s, "StrokePaint") {
                FilterInput::StrokePaint
            } else if has_result(previous, s) {
                FilterInput::Reference(s.to_owned())
            } else {
                fallback_input(previous)
            }
        },
    }
}

/// A merge filter primitive.
///
/// `feMerge` element in the SVG.
pub struct FeMerge {
    /// List of input layers that should be merged: one per `feMergeNode`.
    pub inputs: Vec<FilterInput>,
}

/// Converts an `feMerge` element from the `in` values of its
/// `feMergeNode` children, in order, given the result names of the
/// primitives before it: one resolved input per child.
pub fn convert_merge(node_inputs: &[Option<&str>], previous: &[String]) -> (r: FeMerge)
    ensures
        r.inputs@.len() == node_inputs@.len(),
        forall|k: int|
            0 <= k < node_inputs@.len() ==> (#[trigger] r.inputs@[k])@ == resolve_input_of(
                match node_inputs@[k] {
                    Some(v) => Some(v@),
                    None => None,
                },
                result_names(previous@),
            ),
{
    let mut inputs: Vec<FilterInput> = Vec::new();
    let mut i: usize = 0;
    while i < node_inputs.len()
        invariant
            i <= node_inputs@.len(),
            inputs@.len() == i,
            forall|k: int|
                0 <= k < i ==> (#[trigger] inputs@[k])@ == resolve_input_of(
                    match node_inputs@[k] {
                        Some(v) => Some(v@),
                        None => None,
                    },
                    result_names(previous@),
                ),
        decreases node_inputs@.len() - i,
    {
        inputs.push(resolve_input(node_inputs[i], previous));
        i += 1;
    }
    FeMerge { inputs }
}

} // verus!
