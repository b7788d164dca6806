//! How the backends set up filling and stroking: which paint source, fill
//! rule, line cap, line join and dash state a fill or a stroke selects.
//! The values themselves (colors, opacities, widths, dash lengths) are
//! carried by the caller.

use vstd::prelude::*;

verus! {

/// The kind of the definition that a paint link resolves to.
#[derive(Clone, Copy, PartialEq, Eq, Structural)]
pub enum LinkTarget {
    LinearGradient,
    RadialGradient,
    Pattern,
    /// Any other kind of definition.
    Other,
}

/// A paint: a plain color, or a link to a definition, with the kind of
/// definition it resolves to (`None` when the link is unresolved).
#[derive(Clone, Copy, PartialEq, Eq, Structural)]
pub enum Paint {
    Color,
    Link(Option<LinkTarget>),
}

/// A paint server that a link prepares.
#[derive(Clone, Copy, PartialEq, Eq, Structural)]
pub enum PaintServer {
    LinearGradient,
    RadialGradient,
    Pattern,
}

/// A stroke line cap.
#[derive(Clone, Copy, PartialEq, Eq, Structural)]
pub enum LineCap {
    Butt,
    Round,
    Square,
}

/// A stroke line join.
#[derive(Clone, Copy, PartialEq, Eq, Structural)]
pub enum LineJoin {
    Miter,
    Round,
    Bevel,
}

/// A fill rule.
#[derive(Clone, Copy, PartialEq, Eq, Structural)]
pub enum FillRule {
    NonZero,
    EvenOdd,
}

/// What stroking reads of a stroke.
#[derive(Clone, Copy, PartialEq, Eq, Structural)]
pub struct StrokeStyle {
    pub paint: Paint,
    pub linecap: LineCap,
    pub linejoin: LineJoin,
    /// The stroke has a dash array.
    pub has_dasharray: bool,
}

/// What filling reads of a fill.
#[derive(Clone, Copy, PartialEq, Eq, Structural)]
pub struct FillStyle {
    pub paint: Paint,
    pub rule: FillRule,
}

/// A Qt pen cap style.
#[derive(Clone, Copy, PartialEq, Eq, Structural)]
pub enum QtCapStyle {
    FlatCap,
    RoundCap,
    SquareCap,
}

/// A Qt pen join style.
#[derive(Clone, Copy, PartialEq, Eq, Structural)]
pub enum QtJoinStyle {
    MiterJoin,
    RoundJoin,
    BevelJoin,
}

/// A cairo fill rule.
#[derive(Clone, Copy, PartialEq, Eq, Structural)]
pub enum CairoFillRule {
    Winding,
    EvenOdd,
}

/// Where a pen takes its color from: the stroke's color (with the
/// stroke's opacity as alpha), or a brush, holding the prepared paint
/// server or nothing when the link leads to none.
#[derive(Clone, Copy, PartialEq, Eq, Structural)]
pub enum PenSource {
    Color,
    Brush(Option<PaintServer>),
}

/// How the Qt backend sets its pen for a stroke.
#[derive(Clone, Copy, PartialEq, Eq, Structural)]
pub enum PenPlan {
    /// No stroke: the painter's pen is reset.
    Reset,
    /// A pen with this source, cap and join; the dash offset and array are
    /// set when `sets_dash`.
    Pen { source: PenSource, cap: QtCapStyle, join: QtJoinStyle, sets_dash: bool },
}

/// Where the cairo backend takes the fill source from: the fill's color,
/// a prepared paint server, or nowhere (the source is left as it is).
#[derive(Clone, Copy, PartialEq, Eq, Structural)]
pub enum FillSource {
    Color,
    Server(PaintServer),
    Unchanged,
}

/// How the cairo backend sets its source and fill rule for a fill.
#[derive(Clone, Copy, PartialEq, Eq, Structural)]
pub enum FillPlan {
    /// No fill: the source is reset and the rule is winding.
    Reset,
    Fill { source: FillSource, rule: CairoFillRule },
}

/// The paint server that a link target prepares: gradients and patterns.
pub open spec fn server_of(target: Option<LinkTarget>) -> Option<PaintServer> {
    match target {
        Some(LinkTarget::LinearGradient) => Some(PaintServer::LinearGradient),
        Some(LinkTarget::RadialGradient) => Some(PaintServer::RadialGradient),
        Some(LinkTarget::Pattern) => Some(PaintServer::Pattern),
        _ => None,
    }
}

/// The Qt cap style of a line cap.
pub open spec fn qt_cap_of(cap: LineCap) -> QtCapStyle {
    match cap {
        LineCap::Butt => QtCapStyle::FlatCap,
        LineCap::Round => QtCapStyle::RoundCap,
        LineCap::Square => QtCapStyle::SquareCap,
    }
}

/// The Qt join style of a line join.
pub open spec fn qt_join_of(join: LineJoin) -> QtJoinStyle {
    match join {
        LineJoin::Miter => QtJoinStyle::MiterJoin,
        LineJoin::Round => QtJoinStyle::RoundJoin,
        LineJoin::Bevel => QtJoinStyle::BevelJoin,
    }
}

/// The cairo fill rule of a fill rule.
pub open spec fn cairo_rule_of(rule: FillRule) -> CairoFillRule {
    match rule {
        FillRule::NonZero => CairoFillRule::Winding,
        FillRule::EvenOdd => CairoFillRule::EvenOdd,
    }
}

/// The pen of a stroke.
pub open spec fn pen_plan_of(stroke: Option<StrokeStyle>) -> PenPlan {
    match stroke {
        None => PenPlan::Reset,
        Some(s) => PenPlan::Pen {
            source: match s.paint {
                Paint::Color => PenSource::Color,
                Paint::Link(target) => PenSource::Brush(server_of(target)),
            },
            cap: qt_cap_of(s.linecap),
            join: qt_join_of(s.linejoin),
            sets_dash: s.has_dasharray,
        },
    }
}

/// The source and rule of a fill.
pub open spec fn fill_plan_of(fill: Option<FillStyle>) -> FillPlan {
    match fill {
        None => FillPlan::Reset,
        Some(f) => FillPlan::Fill {
            source: match f.paint {
                Paint::Color => FillSource::Color,
                Paint::Link(target) => match server_of(target) {
                    Some(server) => FillSource::Server(server),
                    None => FillSource::Unchanged,
                },
            },
            rule: cairo_rule_of(f.rule),
        },
    }
}

fn server(target: Option<LinkTarget>) -> (r: Option<PaintServer>)
    ensures
        r == server_of(target),
{
    match target {
        Some(LinkTarget::LinearGradient) => Some(PaintServer::LinearGradient),
        Some(LinkTarget::RadialGradient) => Some(PaintServer::RadialGradient),
        Some(LinkTarget::Pattern) => Some(PaintServer::Pattern),
        _ => None,
    }
}

/// Sets up the Qt pen for a stroke: no stroke resets the pen; otherwise
/// the pen takes the color or a brush of the linked paint server, the cap
/// and join of the stroke, and a dash only when the stroke has a dash
/// array.
pub fn apply_stroke(stroke: Option<StrokeStyle>) -> (r: PenPlan)
    ensures
        r == pen_plan_of(stroke),
{
    match stroke {
        None => PenPlan::Reset,
        Some(s) => {
            let source = match s.paint {
                Paint::Color => PenSource::Color,
                Paint::Link(target) => PenSource::Brush(server(target)),
            };
            let cap = match s.linecap {
                LineCap::Butt => QtCapStyle::FlatCap,
                LineCap::Round => QtCapStyle::RoundCap,
                LineCap::Square => QtCapStyle::SquareCap,
            };
            let join = match s.linejoin {
                LineJoin::Miter => QtJoinStyle::MiterJoin,
                LineJoin::Round => QtJoinStyle::RoundJoin,
                LineJoin::Bevel => QtJoinStyle::BevelJoin,
            };
            PenPlan::Pen { source, cap, join, sets_dash: s.has_dasharray }
        },
    }
}

/// Sets up the cairo source and fill rule for a fill: no fill resets the
/// source and uses the winding rule; otherwise the source is the color or
/// the linked paint server (left unchanged when the link leads to none),
/// and the rule is the fill's.
pub fn apply_fill(fill: Option<FillStyle>) -> (r: FillPlan)
    ensures
        r == fill_plan_of(fill),
{
    match fill {
        None => FillPlan::Reset,
        Some(f) => {
            let source = match f.paint {
                Paint::Color => FillSource::Color,
                Paint::Link(target) => match server(target) {
                    Some(sv) => FillSource::Server(sv),
                    None => FillSource::Unchanged,
                },
            };
            let rule = match f.rule {
                FillRule::NonZero => CairoFillRule::Winding,
                FillRule::EvenOdd => CairoFillRule::EvenOdd,
            };
            FillPlan::Fill { source, rule }
        },
    }
}

/// A fill that links to a gradient or a pattern takes that paint server
/// as its source; a fill with a color takes the color; a link to
/// anything else leaves the source as it is. The non-zero rule is cairo's
/// winding rule and even-odd stays even-odd.
pub proof fn lemma_fill_sources(rule: FillRule)
    ensures
        fill_plan_of(Some(FillStyle { paint: Paint::Link(Some(LinkTarget::LinearGradient)), rule }))
            matches FillPlan::Fill { source, .. } && source == FillSource::Server(
            PaintServer::LinearGradient,
        ),
        fill_plan_of(Some(FillStyle { paint: Paint::Link(Some(LinkTarget::RadialGradient)), rule }))
            matches FillPlan::Fill { source, .. } && source == FillSource::Server(
            PaintServer::RadialGradient,
        ),
        fill_plan_of(Some(FillStyle { paint: Paint::Link(Some(LinkTarget::Pattern)), rule }))
            matches FillPlan::Fill { source, .. } && source == FillSource::Server(
            PaintServer::Pattern,
        ),
        fill_plan_of(Some(FillStyle { paint: Paint::Color, rule })) matches FillPlan::Fill {
            source,
            ..
        } && source == FillSource::Color,
        fill_plan_of(Some(FillStyle { paint: Paint::Link(Some(LinkTarget::Other)), rule }))
            matches FillPlan::Fill { source, .. } && source == FillSource::Unchanged,
        fill_plan_of(Some(FillStyle { paint: Paint::Link(None), rule })) matches FillPlan::Fill {
            source,
            ..
        } && source == FillSource::Unchanged,
        forall|p: Paint|
            #[trigger] fill_plan_of(Some(FillStyle { paint: p, rule: FillRule::NonZero }))
                matches FillPlan::Fill { rule, .. } && rule == CairoFillRule::Winding,
        forall|p: Paint|
            #[trigger] fill_plan_of(Some(FillStyle { paint: p, rule: FillRule::EvenOdd }))
                matches FillPlan::Fill { rule, .. } && rule == CairoFillRule::EvenOdd,
        fill_plan_of(None) == FillPlan::Reset,
{
}

/// A stroke with a color uses it; a stroke linking to a gradient or a
/// pattern uses a brush of that paint server, and any other link an empty
/// brush. Butt, round and square caps are Qt's flat, round and square caps;
/// miter, round and bevel joins are Qt's; a dash is set exactly when the
/// stroke has a dash array. No stroke resets the pen.
pub proof fn lemma_stroke_pens(s: StrokeStyle)
    ensures
        pen_plan_of(None) == PenPlan::Reset,
        pen_plan_of(Some(s)) matches PenPlan::Pen { source, cap, join, sets_dash } && sets_dash
            == s.has_dasharray && (s.linecap == LineCap::Butt <==> cap == QtCapStyle::FlatCap)
            && (s.linecap == LineCap::Round <==> cap == QtCapStyle::RoundCap) && (s.linecap
            == LineCap::Square <==> cap == QtCapStyle::SquareCap) && (s.linejoin == LineJoin::Miter
            <==> join == QtJoinStyle::MiterJoin) && (s.linejoin == LineJoin::Round <==> join
            == QtJoinStyle::RoundJoin) && (s.linejoin == LineJoin::Bevel <==> join
            == QtJoinStyle::BevelJoin) && (s.paint == Paint::Color <==> source == PenSource::Color)
            && (s.paint == Paint::Link(Some(LinkTarget::LinearGradient)) ==> source
            == PenSource::Brush(Some(PaintServer::LinearGradient))) && (s.paint == Paint::Link(
            Some(LinkTarget::RadialGradient),
        ) ==> source == PenSource::Brush(Some(PaintServer::RadialGradient))) && (s.paint
            == Paint::Link(Some(LinkTarget::Pattern)) ==> source == PenSource::Brush(
            Some(PaintServer::Pattern),
        )) && (s.paint == Paint::Link(Some(LinkTarget::Other)) ==> source == PenSource::Brush(
            None,
        )) && (s.paint == Paint::Link(None) ==> source == PenSource::Brush(None)),
{
}

} // verus!
