//! Which presentation attributes are written when a tree is saved as SVG:
//! units only when they differ from the default, fill and stroke
//! properties only when they differ from theirs, and links only to
//! definitions that were written.
//!
//! Numbers (opacities, widths, dash lengths) are written from the node by
//! the caller; here they only decide, by whether they are the default,
//! whether the attribute is written.

use vstd::prelude::*;

use crate::clip_path::Units;
use crate::names::AId;
use crate::paint::{FillRule, LineCap, LineJoin};
use crate::strings::str_eq;

verus! {

/// An RGB color.
#[derive(Clone, Copy, PartialEq, Eq, Structural)]
pub struct Color {
    pub red: u8,
    pub green: u8,
    pub blue: u8,
}

/// The paint of a fill or a stroke: a color, or a link to a definition by
/// its id.
pub enum PaintValue {
    Color(Color),
    Link(String),
}

/// What saving reads of a fill.
pub struct FillAttrs {
    pub paint: PaintValue,
    pub opacity_is_default: bool,
    pub rule: FillRule,
}

/// What saving reads of a stroke.
pub struct StrokeAttrs {
    pub paint: PaintValue,
    pub opacity_is_default: bool,
    /// The dash offset is zero.
    pub dashoffset_is_zero: bool,
    pub miterlimit_is_default: bool,
    pub width_is_default: bool,
    pub linecap: LineCap,
    pub linejoin: LineJoin,
    pub has_dasharray: bool,
}

/// The value an attribute is written with.
pub enum AttrValue {
    /// `none`.
    NoPaint,
    Color(Color),
    /// A link to the definition with this id.
    Link(String),
    Units(Units),
    FillRule(FillRule),
    LineCap(LineCap),
    LineJoin(LineJoin),
    /// The node's number or number list for the attribute.
    NodeValue,
}

/// An attribute value, with a link's id as characters.
pub enum AttrValueView {
    NoPaint,
    Color(Color),
    Link(Seq<char>),
    Units(Units),
    FillRule(FillRule),
    LineCap(LineCap),
    LineJoin(LineJoin),
    NodeValue,
}

impl View for AttrValue {
    type V = AttrValueView;

    open spec fn view(&self) -> AttrValueView {
        match self {
            AttrValue::NoPaint => AttrValueView::NoPaint,
            AttrValue::Color(c) => AttrValueView::Color(*c),
            AttrValue::Link(id) => AttrValueView::Link(id@),
            AttrValue::Units(u) => AttrValueView::Units(*u),
            AttrValue::FillRule(r) => AttrValueView::FillRule(*r),
            AttrValue::LineCap(c) => AttrValueView::LineCap(*c),
            AttrValue::LineJoin(j) => AttrValueView::LineJoin(*j),
            AttrValue::NodeValue => AttrValueView::NodeValue,
        }
    }
}

/// An attribute to write.
pub struct Attr {
    pub aid: AId,
    pub value: AttrValue,
}

impl View for Attr {
    type V = (AId, AttrValueView);

    open spec fn view(&self) -> (AId, AttrValueView) {
        (self.aid, self.value@)
    }
}

/// The attributes of a list, as values.
pub open spec fn attrs_view(v: Seq<Attr>) -> Seq<(AId, AttrValueView)> {
    v.map_values(|a: Attr| a@)
}

/// The ids of the definitions that were written.
pub open spec fn ids_view(v: Seq<String>) -> Seq<Seq<char>> {
    v.map_values(|s: String| s@)
}

/// The units attribute: written only when the units differ from the
/// attribute's default.
pub open spec fn units_attr_of(aid: AId, units: Units, default: Units) -> Seq<(AId, AttrValueView)> {
    if units != default {
        seq![(aid, AttrValueView::Units(units))]
    } else {
        seq![]
    }
}

/// A link attribute: written only when a definition of that id was
/// written.
pub open spec fn link_attr_of(written: Seq<Seq<char>>, aid: AId, id: Seq<char>) -> Seq<
    (AId, AttrValueView),
> {
    if written.contains(id) {
        seq![(aid, AttrValueView::Link(id))]
    } else {
        seq![]
    }
}

/// Black, the initial fill color.
pub open spec fn black() -> Color {
    Color { red: 0, green: 0, blue: 0 }
}

/// The attributes of a fill: the paint (a black color is left out), the
/// opacity when not the default, and the rule when not non-zero (as
/// `clip-rule` inside a clip path, `fill-rule` elsewhere); no fill is
/// `fill="none"`.
pub open spec fn fill_attrs_of(written: Seq<Seq<char>>, fill: Option<&FillAttrs>, in_clip_path: bool) -> Seq<
    (AId, AttrValueView),
> {
    match fill {
        None => seq![(AId::Fill, AttrValueView::NoPaint)],
        Some(f) => {
            let paint = match f.paint {
                PaintValue::Color(c) => if c != black() {
                    seq![(AId::Fill, AttrValueView::Color(c))]
                } else {
                    seq![]
                },
                PaintValue::Link(id) => link_attr_of(written, AId::Fill, id@),
            };
            let opacity = if !f.opacity_is_default {
                seq![(AId::FillOpacity, AttrValueView::NodeValue)]
            } else {
                seq![]
            };
            let rule = if f.rule != FillRule::NonZero {
                seq![
                    (
                        if in_clip_path {
                            AId::ClipRule
                        } else {
                            AId::FillRule
                        },
                        AttrValueView::FillRule(f.rule),
                    ),
                ]
            } else {
                seq![]
            };
            paint + opacity + rule
        },
    }
}

/// `seq![x]` when `cond`, else nothing.
pub open spec fn attr_if(cond: bool, x: (AId, AttrValueView)) -> Seq<(AId, AttrValueView)> {
    if cond {
        seq![x]
    } else {
        seq![]
    }
}

/// The attributes of a stroke: the paint (a color always), then each
/// property that is not its default: opacity, dash offset, miter limit,
/// width, cap (butt), join (miter), and the dash array when there is one.
/// No stroke writes nothing.
pub open spec fn stroke_attrs_of(written: Seq<Seq<char>>, stroke: Option<&StrokeAttrs>) -> Seq<
    (AId, AttrValueView),
> {
    match stroke {
        None => seq![],
        Some(s) => {
            let paint = match s.paint {
                PaintValue::Color(c) => seq![(AId::Stroke, AttrValueView::Color(c))],
                PaintValue::Link(id) => link_attr_of(written, AId::Stroke, id@),
            };
            paint + attr_if(!s.opacity_is_default, (AId::StrokeOpacity, AttrValueView::NodeValue))
                + attr_if(!s.dashoffset_is_zero, (AId::StrokeDashoffset, AttrValueView::NodeValue))
                + attr_if(
                !s.miterlimit_is_default,
                (AId::StrokeMiterlimit, AttrValueView::NodeValue),
            ) + attr_if(!s.width_is_default, (AId::StrokeWidth, AttrValueView::NodeValue))
                + attr_if(
                s.linecap != LineCap::Butt,
                (AId::StrokeLinecap, AttrValueView::LineCap(s.linecap)),
            ) + attr_if(
                s.linejoin != LineJoin::Miter,
                (AId::StrokeLinejoin, AttrValueView::LineJoin(s.linejoin)),
            ) + attr_if(s.has_dasharray, (AId::StrokeDasharray, AttrValueView::NodeValue))
        },
    }
}

fn push_attr(out: &mut Vec<Attr>, aid: AId, value: AttrValue)
    ensures
        attrs_view(final(out)@) == attrs_view(old(out)@).push((aid, value@)),
{
    let a = Attr { aid, value };
    out.push(a);
    proof {
        assert(attrs_view(out@) =~= attrs_view(old(out)@).push((aid, value@)));
    }
}

fn push_attr_if(out: &mut Vec<Attr>, cond: bool, aid: AId, value: AttrValue)
    ensures
        attrs_view(final(out)@) == attrs_view(old(out)@) + attr_if(cond, (aid, value@)),
{
    if cond {
        push_attr(out, aid, value);
        assert(attrs_view(old(out)@).push((aid, value@)) =~= attrs_view(old(out)@) + seq![(aid, value@)]);
    } else {
        assert(attrs_view(out@) =~= attrs_view(out@) + Seq::<(AId, AttrValueView)>::empty());
    }
}

/// The units attribute to write, if any.
pub fn conv_units(aid: AId, units: Units, default: Units) -> (r: Option<Attr>)
    ensures
        match r {
            Some(a) => seq![a@],
            None => Seq::<(AId, AttrValueView)>::empty(),
        } == units_attr_of(aid, units, default),
{
    if units != default {
        Some(Attr { aid, value: AttrValue::Units(units) })
    } else {
        None
    }
}

fn is_written(written: &[String], id: &str) -> (r: bool)
    ensures
        r == ids_view(written@).contains(id@),
{
    let mut i: usize = 0;
    while i < written.len()
        invariant
            i <= written@.len(),
            forall|k: int| 0 <= k < i ==> written@[k]@ != id@,
        decreases written@.len() - i,
    {
        if str_eq(written[i].as_str(), id) {
            assert(ids_view(written@)[i as int] == id@);
            return true;
        }
        i += 1;
    }
    proof {
        if ids_view(written@).contains(id@) {
            let k = choose|k: int| 0 <= k < ids_view(written@).len() && ids_view(written@)[k] == id@;
            assert(written@[k]@ == id@);
        }
    }
    false
}

/// Appends the link attribute `aid` to the definition `id` when a
/// definition of that id was written.
pub fn conv_link(written: &[String], aid: AId, id: &str, out: &mut Vec<Attr>)
    ensures
        attrs_view(final(out)@) == attrs_view(old(out)@) + link_attr_of(ids_view(written@), aid, id@),
{
    if is_written(written, id) {
        push_attr(out, aid, AttrValue::Link(id.to_owned()));
        assert(attrs_view(old(out)@).push((aid, AttrValueView::Link(id@))) =~= attrs_view(old(out)@)
            + seq![(aid, AttrValueView::Link(id@))]);
    } else {
        assert(attrs_view(out@) =~= attrs_view(out@) + Seq::<(AId, AttrValueView)>::empty());
    }
}

/// The fill attributes of a path; `in_clip_path` when the path is drawn
/// inside a clip path. `written` holds the ids of the written definitions.
pub fn conv_fill(written: &[String], fill: Option<&FillAttrs>, in_clip_path: bool) -> (r: Vec<Attr>)
    ensures
        attrs_view(r@) == fill_attrs_of(ids_view(written@), fill, in_clip_path),
{
    let mut out: Vec<Attr> = Vec::new();
    assert(attrs_view(out@) =~= Seq::<(AId, AttrValueView)>::empty());
    match fill {
        None => {
            push_attr(&mut out, AId::Fill, AttrValue::NoPaint);
        },
        Some(f) => {
            match &f.paint {
                PaintValue::Color(c) => {
                    let is_black = c.red == 0 && c.green == 0 && c.blue == 0;
                    push_attr_if(&mut out, !is_black, AId::Fill, AttrValue::Color(*c));
                },
                PaintValue::Link(id) => {
                    conv_link(written, AId::Fill, id.as_str(), &mut out);
                },
            }
            push_attr_if(&mut out, !f.opacity_is_default, AId::FillOpacity, AttrValue::NodeValue);
            let rule_aid = if in_clip_path {
                AId::ClipRule
            } else {
                AId::FillRule
            };
            let non_zero = match f.rule {
                FillRule::NonZero => true,
                FillRule::EvenOdd => false,
            };
            push_attr_if(&mut out, !non_zero, rule_aid, AttrValue::FillRule(f.rule));
        },
    }
    out
}

/// The stroke attributes of a path. `written` holds the ids of the
/// written definitions.
pub fn conv_stroke(written: &[String], stroke: Option<&StrokeAttrs>) -> (r: Vec<Attr>)
    ensures
        attrs_view(r@) == stroke_attrs_of(ids_view(written@), stroke),
{
    let mut out: Vec<Attr> = Vec::new();
    assert(attrs_view(out@) =~= Seq::<(AId, AttrValueView)>::empty());
    match stroke {
        None => {},
        Some(s) => {
            match &s.paint {
                PaintValue::Color(c) => {
                    push_attr(&mut out, AId::Stroke, AttrValue::Color(*c));
                    assert(Seq::<(AId, AttrValueView)>::empty().push(
                        (AId::Stroke, AttrValueView::Color(*c)),
                    ) =~= seq![(AId::Stroke, AttrValueView::Color(*c))]);
                },
                PaintValue::Link(id) => {
                    conv_link(written, AId::Stroke, id.as_str(), &mut out);
                    assert(Seq::<(AId, AttrValueView)>::empty() + link_attr_of(
                        ids_view(written@),
                        AId::Stroke,
                        id@,
                    ) =~= link_attr_of(ids_view(written@), AId::Stroke, id@));
                },
            }
            push_attr_if(&mut out, !s.opacity_is_default, AId::StrokeOpacity, AttrValue::NodeValue);
            push_attr_if(&mut out, !s.dashoffset_is_zero, AId::StrokeDashoffset, AttrValue::NodeValue);
            push_attr_if(
                &mut out,
                !s.miterlimit_is_default,
                AId::StrokeMiterlimit,
                AttrValue::NodeValue,
            );
            push_attr_if(&mut out, !s.width_is_default, AId::StrokeWidth, AttrValue::NodeValue);
            let butt = match s.linecap {
                LineCap::Butt => true,
                _ => false,
            };
            push_attr_if(&mut out, !butt, AId::StrokeLinecap, AttrValue::LineCap(s.linecap));
            let miter = match s.linejoin {
                LineJoin::Miter => true,
                _ => false,
            };
            push_attr_if(&mut out, !miter, AId::StrokeLinejoin, AttrValue::LineJoin(s.linejoin));
            push_attr_if(&mut out, s.has_dasharray, AId::StrokeDasharray, AttrValue::NodeValue);
        },
    }
    out
}

proof fn lemma_contains_concat(a: Seq<(AId, AttrValueView)>, b: Seq<(AId, AttrValueView)>, x: (
    AId,
    AttrValueView,
))
    ensures
        (a + b).contains(x) <==> a.contains(x) || b.contains(x),
{
    if (a + b).contains(x) {
        let k = choose|k: int| 0 <= k < (a + b).len() && (a + b)[k] == x;
        if k < a.len() {
            assert(a[k] == x);
        } else {
            assert(b[k - a.len()] == x);
        }
    }
    if a.contains(x) {
        let k = choose|k: int| 0 <= k < a.len() && a[k] == x;
        assert((a + b)[k] == x);
    }
    if b.contains(x) {
        let k = choose|k: int| 0 <= k < b.len() && b[k] == x;
        assert((a + b)[a.len() + k] == x);
    }
}

proof fn lemma_contains_one(y: (AId, AttrValueView), x: (AId, AttrValueView))
    ensures
        seq![y].contains(x) <==> x == y,
{
    if x == y {
        assert(seq![y][0] == x);
    }
}

proof fn lemma_contains_attr_if(c: bool, y: (AId, AttrValueView), x: (AId, AttrValueView))
    ensures
        attr_if(c, y).contains(x) <==> c && x == y,
{
    lemma_contains_one(y, x);
}

proof fn lemma_link_aid(written: Seq<Seq<char>>, aid: AId, id: Seq<char>, x: (AId, AttrValueView))
    ensures
        link_attr_of(written, aid, id).contains(x) ==> x.0 == aid,
{
    lemma_contains_one((aid, AttrValueView::Link(id)), x);
}

/// Each stroke property is written exactly when it is not its default:
/// the cap unless it is butt, the join unless it is miter, the opacity,
/// dash offset, miter limit and width unless they are their defaults, and
/// the dash array when there is one. The paint is always written.
pub proof fn lemma_stroke_attrs_not_default(written: Seq<Seq<char>>, s: &StrokeAttrs)
    ensures
        stroke_attrs_of(written, Some(s)).contains((AId::StrokeLinecap, AttrValueView::LineCap(s.linecap)))
            <==> s.linecap != LineCap::Butt,
        stroke_attrs_of(written, Some(s)).contains(
            (AId::StrokeLinejoin, AttrValueView::LineJoin(s.linejoin)),
        ) <==> s.linejoin != LineJoin::Miter,
        stroke_attrs_of(written, Some(s)).contains((AId::StrokeOpacity, AttrValueView::NodeValue))
            <==> !s.opacity_is_default,
        stroke_attrs_of(written, Some(s)).contains((AId::StrokeDashoffset, AttrValueView::NodeValue))
            <==> !s.dashoffset_is_zero,
        stroke_attrs_of(written, Some(s)).contains((AId::StrokeMiterlimit, AttrValueView::NodeValue))
            <==> !s.miterlimit_is_default,
        stroke_attrs_of(written, Some(s)).contains((AId::StrokeWidth, AttrValueView::NodeValue))
            <==> !s.width_is_default,
        stroke_attrs_of(written, Some(s)).contains((AId::StrokeDasharray, AttrValueView::NodeValue))
            <==> s.has_dasharray,
        s.paint matches PaintValue::Color(c) ==> stroke_attrs_of(written, Some(s)).contains(
            (AId::Stroke, AttrValueView::Color(c)),
        ),
        stroke_attrs_of(written, None).len() == 0,
{
    let paint = match s.paint {
        PaintValue::Color(c) => seq![(AId::Stroke, AttrValueView::Color(c))],
        PaintValue::Link(id) => link_attr_of(written, AId::Stroke, id@),
    };
    let a1 = attr_if(!s.opacity_is_default, (AId::StrokeOpacity, AttrValueView::NodeValue));
    let a2 = attr_if(!s.dashoffset_is_zero, (AId::StrokeDashoffset, AttrValueView::NodeValue));
    let a3 = attr_if(!s.miterlimit_is_default, (AId::StrokeMiterlimit, AttrValueView::NodeValue));
    let a4 = attr_if(!s.width_is_default, (AId::StrokeWidth, AttrValueView::NodeValue));
    let a5 = attr_if(
        s.linecap != LineCap::Butt,
        (AId::StrokeLinecap, AttrValueView::LineCap(s.linecap)),
    );
    let a6 = attr_if(
        s.linejoin != LineJoin::Miter,
        (AId::StrokeLinejoin, AttrValueView::LineJoin(s.linejoin)),
    );
    let a7 = attr_if(s.has_dasharray, (AId::StrokeDasharray, AttrValueView::NodeValue));
    let all = stroke_attrs_of(written, Some(s));
    assert(all == paint + a1 + a2 + a3 + a4 + a5 + a6 + a7);
    let xs = seq![
        (AId::StrokeLinecap, AttrValueView::LineCap(s.linecap)),
        (AId::StrokeLinejoin, AttrValueView::LineJoin(s.linejoin)),
        (AId::StrokeOpacity, AttrValueView::NodeValue),
        (AId::StrokeDashoffset, AttrValueView::NodeValue),
        (AId::StrokeMiterlimit, AttrValueView::NodeValue),
        (AId::StrokeWidth, AttrValueView::NodeValue),
        (AId::StrokeDasharray, AttrValueView::NodeValue),
    ];
    assert forall|k: int| 0 <= k < xs.len() implies (all.contains(#[trigger] xs[k]) <==> (
    a1.contains(xs[k]) || a2.contains(xs[k]) || a3.contains(xs[k]) || a4.contains(xs[k])
        || a5.contains(xs[k]) || a6.contains(xs[k]) || a7.contains(xs[k]))) by {
        let x = xs[k];
        lemma_contains_concat(paint + a1 + a2 + a3 + a4 + a5 + a6, a7, x);
        lemma_contains_concat(paint + a1 + a2 + a3 + a4 + a5, a6, x);
        lemma_contains_concat(paint + a1 + a2 + a3 + a4, a5, x);
        lemma_contains_concat(paint + a1 + a2 + a3, a4, x);
        lemma_contains_concat(paint + a1 + a2, a3, x);
        lemma_contains_concat(paint + a1, a2, x);
        lemma_contains_concat(paint, a1, x);
        match s.paint {
            PaintValue::Color(c) => lemma_contains_one((AId::Stroke, AttrValueView::Color(c)), x),
            PaintValue::Link(id) => lemma_link_aid(written, AId::Stroke, id@, x),
        }
    }
    assert forall|k: int| 0 <= k < xs.len() implies ((#[trigger] xs[k]) == xs[k] && (
    a1.contains(xs[k]) <==> !s.opacity_is_default && xs[k] == (
        AId::StrokeOpacity,
        AttrValueView::NodeValue,
    )) && (a2.contains(xs[k]) <==> !s.dashoffset_is_zero && xs[k] == (
        AId::StrokeDashoffset,
        AttrValueView::NodeValue,
    )) && (a3.contains(xs[k]) <==> !s.miterlimit_is_default && xs[k] == (
        AId::StrokeMiterlimit,
        AttrValueView::NodeValue,
    )) && (a4.contains(xs[k]) <==> !s.width_is_default && xs[k] == (
        AId::StrokeWidth,
        AttrValueView::NodeValue,
    )) && (a5.contains(xs[k]) <==> s.linecap != LineCap::Butt && xs[k] == (
        AId::StrokeLinecap,
        AttrValueView::LineCap(s.linecap),
    )) && (a6.contains(xs[k]) <==> s.linejoin != LineJoin::Miter && xs[k] == (
        AId::StrokeLinejoin,
        AttrValueView::LineJoin(s.linejoin),
    )) && (a7.contains(xs[k]) <==> s.has_dasharray && xs[k] == (
        AId::StrokeDasharray,
        AttrValueView::NodeValue,
    ))) by {
        let x = xs[k];
        lemma_contains_attr_if(!s.opacity_is_default, (AId::StrokeOpacity, AttrValueView::NodeValue), x);
        lemma_contains_attr_if(!s.dashoffset_is_zero, (AId::StrokeDashoffset, AttrValueView::NodeValue), x);
        lemma_contains_attr_if(!s.miterlimit_is_default, (AId::StrokeMiterlimit, AttrValueView::NodeValue), x);
        lemma_contains_attr_if(!s.width_is_default, (AId::StrokeWidth, AttrValueView::NodeValue), x);
        lemma_contains_attr_if(s.linecap != LineCap::Butt, (AId::StrokeLinecap, AttrValueView::LineCap(s.linecap)), x);
        lemma_contains_attr_if(s.linejoin != LineJoin::Miter, (AId::StrokeLinejoin, AttrValueView::LineJoin(s.linejoin)), x);
        lemma_contains_attr_if(s.has_dasharray, (AId::StrokeDasharray, AttrValueView::NodeValue), x);
    }
    assert(xs[0] == (AId::StrokeLinecap, AttrValueView::LineCap(s.linecap)));
    assert(xs[1] == (AId::StrokeLinejoin, AttrValueView::LineJoin(s.linejoin)));
    assert(xs[2] == (AId::StrokeOpacity, AttrValueView::NodeValue));
    assert(xs[3] == (AId::StrokeDashoffset, AttrValueView::NodeValue));
    assert(xs[4] == (AId::StrokeMiterlimit, AttrValueView::NodeValue));
    assert(xs[5] == (AId::StrokeWidth, AttrValueView::NodeValue));
    assert(xs[6] == (AId::StrokeDasharray, AttrValueView::NodeValue));
    if let PaintValue::Color(c) = s.paint {
        let x = (AId::Stroke, AttrValueView::Color(c));
        lemma_contains_one(x, x);
        lemma_contains_concat(paint + a1 + a2 + a3 + a4 + a5 + a6, a7, x);
        lemma_contains_concat(paint + a1 + a2 + a3 + a4 + a5, a6, x);
        lemma_contains_concat(paint + a1 + a2 + a3 + a4, a5, x);
        lemma_contains_concat(paint + a1 + a2 + a3, a4, x);
        lemma_contains_concat(paint + a1 + a2, a3, x);
        lemma_contains_concat(paint + a1, a2, x);
        lemma_contains_concat(paint, a1, x);
    }
}

/// A fill writes its color unless it is black, its opacity unless it is
/// the default, and its rule unless it is non-zero, as `clip-rule` inside
/// a clip path and `fill-rule` elsewhere. No fill writes `fill="none"`.
pub proof fn lemma_fill_attrs_not_default(written: Seq<Seq<char>>, f: &FillAttrs, in_clip_path: bool)
    ensures
        fill_attrs_of(written, Some(f), in_clip_path).contains(
            (AId::FillOpacity, AttrValueView::NodeValue),
        ) <==> !f.opacity_is_default,
        fill_attrs_of(written, Some(f), in_clip_path).contains(
            (
                if in_clip_path {
                    AId::ClipRule
                } else {
                    AId::FillRule
                },
                AttrValueView::FillRule(f.rule),
            ),
        ) <==> f.rule != FillRule::NonZero,
        f.paint matches PaintValue::Color(c) ==> (fill_attrs_of(
            written,
            Some(f),
            in_clip_path,
        ).contains((AId::Fill, AttrValueView::Color(c))) <==> c != black()),
        fill_attrs_of(written, None, in_clip_path) == seq![(AId::Fill, AttrValueView::NoPaint)],
{
    let paint = match f.paint {
        PaintValue::Color(c) => if c != black() {
            seq![(AId::Fill, AttrValueView::Color(c))]
        } else {
            seq![]
        },
        PaintValue::Link(id) => link_attr_of(written, AId::Fill, id@),
    };
    let rule_aid = if in_clip_path {
        AId::ClipRule
    } else {
        AId::FillRule
    };
    let a1 = attr_if(!f.opacity_is_default, (AId::FillOpacity, AttrValueView::NodeValue));
    let a2 = attr_if(f.rule != FillRule::NonZero, (rule_aid, AttrValueView::FillRule(f.rule)));
    assert(a1 =~= if !f.opacity_is_default {
        seq![(AId::FillOpacity, AttrValueView::NodeValue)]
    } else {
        seq![]
    });
    assert(a2 =~= if f.rule != FillRule::NonZero {
        seq![(rule_aid, AttrValueView::FillRule(f.rule))]
    } else {
        seq![]
    });
    let all = fill_attrs_of(written, Some(f), in_clip_path);
    assert(all == paint + a1 + a2);
    let x1 = (AId::FillOpacity, AttrValueView::NodeValue);
    let x2 = (rule_aid, AttrValueView::FillRule(f.rule));
    lemma_contains_concat(paint + a1, a2, x1);
    lemma_contains_concat(paint, a1, x1);
    lemma_contains_attr_if(!f.opacity_is_default, x1, x1);
    lemma_contains_attr_if(f.rule != FillRule::NonZero, x2, x1);
    lemma_contains_concat(paint + a1, a2, x2);
    lemma_contains_concat(paint, a1, x2);
    lemma_contains_attr_if(!f.opacity_is_default, x1, x2);
    lemma_contains_attr_if(f.rule != FillRule::NonZero, x2, x2);
    match f.paint {
        PaintValue::Color(c) => {
            let x0 = (AId::Fill, AttrValueView::Color(c));
            lemma_contains_one(x0, x1);
            lemma_contains_one(x0, x2);
            lemma_contains_one(x0, x0);
            lemma_contains_concat(paint + a1, a2, x0);
            lemma_contains_concat(paint, a1, x0);
            lemma_contains_attr_if(!f.opacity_is_default, x1, x0);
            lemma_contains_attr_if(f.rule != FillRule::NonZero, x2, x0);
        },
        PaintValue::Link(id) => {
            lemma_link_aid(written, AId::Fill, id@, x1);
            lemma_link_aid(written, AId::Fill, id@, x2);
        },
    }
}

/// A link attribute is written exactly when a definition of the linked
/// id was written, and then it is the only attribute written.
pub proof fn lemma_link_written_iff_defined(written: Seq<Seq<char>>, aid: AId, id: Seq<char>)
    ensures
        link_attr_of(written, aid, id).contains((aid, AttrValueView::Link(id))) <==> written.contains(
            id,
        ),
        link_attr_of(written, aid, id).len() <= 1,
{
    lemma_contains_one((aid, AttrValueView::Link(id)), (aid, AttrValueView::Link(id)));
}

/// A units attribute is written exactly when the units differ from the
/// attribute's default, and it holds those units.
pub proof fn lemma_units_written_iff_not_default(aid: AId, units: Units, default: Units)
    ensures
        units_attr_of(aid, units, default).contains((aid, AttrValueView::Units(units))) <==> units
            != default,
        units_attr_of(aid, units, default).len() <= 1,
{
    lemma_contains_one((aid, AttrValueView::Units(units)), (aid, AttrValueView::Units(units)));
}

} // verus!
