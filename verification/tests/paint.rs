use resvg::paint::{
    apply_fill, apply_stroke, CairoFillRule, FillPlan, FillRule, FillSource, FillStyle, LineCap,
    LineJoin, LinkTarget, Paint, PaintServer, PenPlan, PenSource, QtCapStyle, QtJoinStyle,
    StrokeStyle,
};

#[test]
fn no_stroke_resets_the_pen() {
    assert!(apply_stroke(None) == PenPlan::Reset);
}

#[test]
fn stroke_caps_joins_and_dashes() {
    let s = StrokeStyle {
        paint: Paint::Color,
        linecap: LineCap::Butt,
        linejoin: LineJoin::Bevel,
        has_dasharray: true,
    };
    assert!(
        apply_stroke(Some(s))
            == PenPlan::Pen {
                source: PenSource::Color,
                cap: QtCapStyle::FlatCap,
                join: QtJoinStyle::BevelJoin,
                sets_dash: true,
            }
    );
    let s = StrokeStyle {
        paint: Paint::Link(Some(LinkTarget::Pattern)),
        linecap: LineCap::Square,
        linejoin: LineJoin::Round,
        has_dasharray: false,
    };
    assert!(
        apply_stroke(Some(s))
            == PenPlan::Pen {
                source: PenSource::Brush(Some(PaintServer::Pattern)),
                cap: QtCapStyle::SquareCap,
                join: QtJoinStyle::RoundJoin,
                sets_dash: false,
            }
    );
    let s = StrokeStyle {
        paint: Paint::Link(None),
        linecap: LineCap::Round,
        linejoin: LineJoin::Miter,
        has_dasharray: false,
    };
    assert!(
        apply_stroke(Some(s))
            == PenPlan::Pen {
                source: PenSource::Brush(None),
                cap: QtCapStyle::RoundCap,
                join: QtJoinStyle::MiterJoin,
                sets_dash: false,
            }
    );
}

#[test]
fn fills() {
    assert!(apply_fill(None) == FillPlan::Reset);
    let f = FillStyle { paint: Paint::Color, rule: FillRule::EvenOdd };
    assert!(apply_fill(Some(f)) == FillPlan::Fill { source: FillSource::Color, rule: CairoFillRule::EvenOdd });
    let f = FillStyle { paint: Paint::Link(Some(LinkTarget::RadialGradient)), rule: FillRule::NonZero };
    assert!(
        apply_fill(Some(f))
            == FillPlan::Fill {
                source: FillSource::Server(PaintServer::RadialGradient),
                rule: CairoFillRule::Winding,
            }
    );
    let f = FillStyle { paint: Paint::Link(Some(LinkTarget::Other)), rule: FillRule::NonZero };
    assert!(apply_fill(Some(f)) == FillPlan::Fill { source: FillSource::Unchanged, rule: CairoFillRule::Winding });
    let f = FillStyle { paint: Paint::Link(Some(LinkTarget::LinearGradient)), rule: FillRule::EvenOdd };
    assert!(
        apply_fill(Some(f))
            == FillPlan::Fill {
                source: FillSource::Server(PaintServer::LinearGradient),
                rule: CairoFillRule::EvenOdd,
            }
    );
}
