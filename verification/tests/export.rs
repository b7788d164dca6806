use resvg::clip_path::Units;
use resvg::export::{
    conv_fill, conv_link, conv_stroke, conv_units, Attr, AttrValue, Color, FillAttrs, PaintValue,
    StrokeAttrs,
};
use resvg::names::AId;
use resvg::paint::{FillRule, LineCap, LineJoin};

fn ids(v: &[&str]) -> Vec<String> {
    v.iter().map(|s| s.to_string()).collect()
}

fn aids(v: &[Attr]) -> Vec<AId> {
    v.iter().map(|a| a.aid).collect()
}

#[test]
fn units_only_when_not_default() {
    assert!(conv_units(AId::MaskUnits, Units::ObjectBoundingBox, Units::ObjectBoundingBox).is_none());
    let a = conv_units(AId::MaskUnits, Units::UserSpaceOnUse, Units::ObjectBoundingBox).unwrap();
    assert!(a.aid == AId::MaskUnits);
    assert!(matches!(a.value, AttrValue::Units(Units::UserSpaceOnUse)));
}

#[test]
fn links_only_to_written_definitions() {
    let written = ids(&["grad1", "clip1"]);
    let mut out = Vec::new();
    conv_link(&written, AId::ClipPath, "clip1", &mut out);
    conv_link(&written, AId::Mask, "missing", &mut out);
    assert_eq!(out.len(), 1);
    assert!(out[0].aid == AId::ClipPath);
    match &out[0].value {
        AttrValue::Link(id) => assert_eq!(id, "clip1"),
        _ => panic!(),
    }
}

#[test]
fn fill_attributes_written() {
    let written = ids(&["g"]);
    let none = conv_fill(&written, None, false);
    assert!(aids(&none) == vec![AId::Fill]);
    assert!(matches!(none[0].value, AttrValue::NoPaint));

    let black = FillAttrs {
        paint: PaintValue::Color(Color { red: 0, green: 0, blue: 0 }),
        opacity_is_default: true,
        rule: FillRule::NonZero,
    };
    assert!(conv_fill(&written, Some(&black), false).is_empty());

    let red = FillAttrs {
        paint: PaintValue::Color(Color { red: 255, green: 0, blue: 0 }),
        opacity_is_default: false,
        rule: FillRule::EvenOdd,
    };
    assert!(aids(&conv_fill(&written, Some(&red), false)) == vec![AId::Fill, AId::FillOpacity, AId::FillRule]);
    assert!(aids(&conv_fill(&written, Some(&red), true)) == vec![AId::Fill, AId::FillOpacity, AId::ClipRule]);

    let linked = FillAttrs { paint: PaintValue::Link("g".to_string()), opacity_is_default: true, rule: FillRule::NonZero };
    assert!(aids(&conv_fill(&written, Some(&linked), false)) == vec![AId::Fill]);
    let dangling = FillAttrs { paint: PaintValue::Link("x".to_string()), opacity_is_default: true, rule: FillRule::NonZero };
    assert!(conv_fill(&written, Some(&dangling), false).is_empty());
}

#[test]
fn stroke_attributes_written() {
    let written = ids(&[]);
    assert!(conv_stroke(&written, None).is_empty());
    let plain = StrokeAttrs {
        paint: PaintValue::Color(Color { red: 0, green: 0, blue: 0 }),
        opacity_is_default: true,
        dashoffset_is_zero: true,
        miterlimit_is_default: true,
        width_is_default: true,
        linecap: LineCap::Butt,
        linejoin: LineJoin::Miter,
        has_dasharray: false,
    };
    // A stroke color is always written, black too.
    assert!(aids(&conv_stroke(&written, Some(&plain))) == vec![AId::Stroke]);
    let full = StrokeAttrs {
        paint: PaintValue::Color(Color { red: 1, green: 2, blue: 3 }),
        opacity_is_default: false,
        dashoffset_is_zero: false,
        miterlimit_is_default: false,
        width_is_default: false,
        linecap: LineCap::Round,
        linejoin: LineJoin::Bevel,
        has_dasharray: true,
    };
    assert!(
        aids(&conv_stroke(&written, Some(&full)))
            == vec![
            AId::Stroke,
            AId::StrokeOpacity,
            AId::StrokeDashoffset,
            AId::StrokeMiterlimit,
            AId::StrokeWidth,
            AId::StrokeLinecap,
            AId::StrokeLinejoin,
            AId::StrokeDasharray,
            ]
    );
}
