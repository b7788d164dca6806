use resvg::names::{elements, AId, EId, ELEMENTS_KEY};
use resvg::phf::{displace, get_index, split};

#[test]
fn element_names_round_trip() {
    let all: Vec<(EId, &str)> = vec![
        (EId::FeConvolveMatrix, "feConvolveMatrix"),
        (EId::Tspan, "tspan"),
        (EId::Style, "style"),
        (EId::FeFuncB, "feFuncB"),
        (EId::Rect, "rect"),
        (EId::Marker, "marker"),
        (EId::FeDiffuseLighting, "feDiffuseLighting"),
        (EId::G, "g"),
        (EId::Symbol, "symbol"),
        (EId::Pattern, "pattern"),
        (EId::Path, "path"),
        (EId::FeFuncR, "feFuncR"),
        (EId::A, "a"),
        (EId::TextPath, "textPath"),
        (EId::Use, "use"),
        (EId::FeFuncA, "feFuncA"),
        (EId::Tref, "tref"),
        (EId::Circle, "circle"),
        (EId::FePointLight, "fePointLight"),
        (EId::Defs, "defs"),
        (EId::FeTile, "feTile"),
        (EId::Image, "image"),
        (EId::Stop, "stop"),
        (EId::FeGaussianBlur, "feGaussianBlur"),
        (EId::FeFlood, "feFlood"),
        (EId::Polyline, "polyline"),
        (EId::FeComponentTransfer, "feComponentTransfer"),
        (EId::LinearGradient, "linearGradient"),
        (EId::FeFuncG, "feFuncG"),
        (EId::Ellipse, "ellipse"),
        (EId::ClipPath, "clipPath"),
        (EId::FeMerge, "feMerge"),
        (EId::FeSpotLight, "feSpotLight"),
        (EId::FeBlend, "feBlend"),
        (EId::Svg, "svg"),
        (EId::FeColorMatrix, "feColorMatrix"),
        (EId::FeTurbulence, "feTurbulence"),
        (EId::FeSpecularLighting, "feSpecularLighting"),
        (EId::Switch, "switch"),
        (EId::FeMorphology, "feMorphology"),
        (EId::FeImage, "feImage"),
        (EId::FeMergeNode, "feMergeNode"),
        (EId::FeOffset, "feOffset"),
        (EId::Polygon, "polygon"),
        (EId::FeComposite, "feComposite"),
        (EId::RadialGradient, "radialGradient"),
        (EId::Line, "line"),
        (EId::FeDisplacementMap, "feDisplacementMap"),
        (EId::FeDistantLight, "feDistantLight"),
        (EId::Mask, "mask"),
        (EId::Text, "text"),
        (EId::Filter, "filter"),
    ];
    for (v, name) in all {
        assert_eq!(v.to_str(), name);
        assert!(EId::from_str(name) == Some(v));
        assert!(EId::from_str(v.to_str()) == Some(v));
    }
}

#[test]
fn attribute_names_round_trip() {
    let all: Vec<(AId, &str)> = vec![
        (AId::StrokeDashoffset, "stroke-dashoffset"),
        (AId::RequiredFeatures, "requiredFeatures"),
        (AId::Points, "points"),
        (AId::Visibility, "visibility"),
        (AId::FontStyle, "font-style"),
        (AId::K3, "k3"),
        (AId::MarkerStart, "marker-start"),
        (AId::Overflow, "overflow"),
        (AId::K4, "k4"),
        (AId::Y, "y"),
        (AId::Rotate, "rotate"),
        (AId::MaskContentUnits, "maskContentUnits"),
        (AId::SystemLanguage, "systemLanguage"),
        (AId::Display, "display"),
        (AId::ColorInterpolationFilters, "color-interpolation-filters"),
        (AId::Width, "width"),
        (AId::StopOpacity, "stop-opacity"),
        (AId::FontFamily, "font-family"),
        (AId::FontWeight, "font-weight"),
        (AId::Filter, "filter"),
        (AId::Href, "href"),
        (AId::Cy, "cy"),
        (AId::Stroke, "stroke"),
        (AId::Fy, "fy"),
        (AId::StrokeDasharray, "stroke-dasharray"),
        (AId::RequiredExtensions, "requiredExtensions"),
        (AId::Height, "height"),
        (AId::Result, "result"),
        (AId::Orient, "orient"),
        (AId::Mask, "mask"),
        (AId::Operator, "operator"),
        (AId::In2, "in2"),
        (AId::EnableBackground, "enable-background"),
        (AId::Id, "id"),
        (AId::StrokeLinejoin, "stroke-linejoin"),
        (AId::TextDecoration, "text-decoration"),
        (AId::X2, "x2"),
        (AId::ViewBox, "viewBox"),
        (AId::Values, "values"),
        (AId::Fill, "fill"),
        (AId::LetterSpacing, "letter-spacing"),
        (AId::Ry, "ry"),
        (AId::Intercept, "intercept"),
        (AId::Transform, "transform"),
        (AId::StopColor, "stop-color"),
        (AId::In, "in"),
        (AId::RefX, "refX"),
        (AId::FloodOpacity, "flood-opacity"),
        (AId::MarkerEnd, "marker-end"),
        (AId::ClipPath, "clip-path"),
        (AId::MarkerMid, "marker-mid"),
        (AId::FillOpacity, "fill-opacity"),
        (AId::SpreadMethod, "spreadMethod"),
        (AId::WordSpacing, "word-spacing"),
        (AId::PrimitiveUnits, "primitiveUnits"),
        (AId::Cx, "cx"),
        (AId::X1, "x1"),
        (AId::MarkerWidth, "markerWidth"),
        (AId::PreserveAspectRatio, "preserveAspectRatio"),
        (AId::R, "r"),
        (AId::WritingMode, "writing-mode"),
        (AId::Direction, "direction"),
        (AId::Class, "class"),
        (AId::MaskUnits, "maskUnits"),
        (AId::FloodColor, "flood-color"),
        (AId::Y1, "y1"),
        (AId::Dy, "dy"),
        (AId::BaselineShift, "baseline-shift"),
        (AId::PatternContentUnits, "patternContentUnits"),
        (AId::FilterUnits, "filterUnits"),
        (AId::MarkerHeight, "markerHeight"),
        (AId::StartOffset, "startOffset"),
        (AId::Amplitude, "amplitude"),
        (AId::Slope, "slope"),
        (AId::StrokeMiterlimit, "stroke-miterlimit"),
        (AId::Offset, "offset"),
        (AId::Type, "type"),
        (AId::Style, "style"),
        (AId::ShapeRendering, "shape-rendering"),
        (AId::FontSize, "font-size"),
        (AId::ClipPathUnits, "clipPathUnits"),
        (AId::Y2, "y2"),
        (AId::Rx, "rx"),
        (AId::TableValues, "tableValues"),
        (AId::X, "x"),
        (AId::Space, "space"),
        (AId::Opacity, "opacity"),
        (AId::Dx, "dx"),
        (AId::StrokeOpacity, "stroke-opacity"),
        (AId::ClipRule, "clip-rule"),
        (AId::StrokeLinecap, "stroke-linecap"),
        (AId::FontStretch, "font-stretch"),
        (AId::PatternUnits, "patternUnits"),
        (AId::Fx, "fx"),
        (AId::D, "d"),
        (AId::GradientTransform, "gradientTransform"),
        (AId::K1, "k1"),
        (AId::TextAnchor, "text-anchor"),
        (AId::StdDeviation, "stdDeviation"),
        (AId::RefY, "refY"),
        (AId::StrokeWidth, "stroke-width"),
        (AId::PatternTransform, "patternTransform"),
        (AId::Mode, "mode"),
        (AId::ImageRendering, "image-rendering"),
        (AId::K2, "k2"),
        (AId::Color, "color"),
        (AId::FillRule, "fill-rule"),
        (AId::FontVariant, "font-variant"),
        (AId::TextRendering, "text-rendering"),
        (AId::MarkerUnits, "markerUnits"),
        (AId::GradientUnits, "gradientUnits"),
        (AId::Exponent, "exponent"),
    ];
    for (v, name) in all {
        assert_eq!(v.to_str(), name);
        assert!(AId::from_str(name) == Some(v));
        assert!(AId::from_str(v.to_str()) == Some(v));
    }
}

#[test]
fn unknown_names_are_rejected() {
    assert!(EId::from_str("") == None);
    assert!(EId::from_str("unknown") == None);
    assert!(EId::from_str("Rect") == None);
    assert!(EId::from_str("rect ") == None);
    assert!(AId::from_str("") == None);
    assert!(AId::from_str("Width") == None);
    assert!(AId::from_str("fill-opacity2") == None);
    assert!(AId::from_str("rect") == None);
}

#[test]
fn known_names_parse() {
    assert!(EId::from_str("linearGradient") == Some(EId::LinearGradient));
    assert!(EId::from_str("feMorphology") == Some(EId::FeMorphology));
    assert!(AId::from_str("stroke-dasharray") == Some(AId::StrokeDasharray));
    assert!(AId::from_str("viewBox") == Some(AId::ViewBox));
    assert_eq!(EId::Svg.to_str(), "svg");
    assert_eq!(AId::ClipPathUnits.to_str(), "clipPathUnits");
}

#[test]
fn lookups_with_given_hashes() {
    let m = elements();
    let mut hasher = siphasher::sip::SipHasher13::new_with_keys(0, ELEMENTS_KEY);
    std::hash::Hasher::write(&mut hasher, b"svg");
    let h = std::hash::Hasher::finish(&hasher);
    assert!(m.get_with_hash("svg", h) == Some(&EId::Svg));
    // With another hash the probe lands elsewhere and the name does not match there.
    let idx = get_index(h, &m.disps, m.entries.len()) as usize;
    assert_eq!(m.entries[idx].0, "svg");
    let other = (0..64u64)
        .map(|k| h ^ (1 << k))
        .find(|&g| get_index(g, &m.disps, m.entries.len()) as usize != idx)
        .unwrap();
    assert!(m.get_with_hash("svg", other) == None);
    assert_eq!(split(0x0000_0000_0000_0000), (0, 0, 0));
    assert_eq!(split(0x7fff_ffff_ffff_ffff), (0x1f_ffff, 0x1f_ffff, 0x1f_ffff));
    assert_eq!(split((3 << 42) | (2 << 21) | 1), (1, 2, 3));
    assert_eq!(displace(2, 3, 5, 7), 7 + 2 * 5 + 3);
    assert_eq!(get_index((3 << 42) | (2 << 21) | 1, &[(1, 0), (5, 7)], 100), (7 + 2 * 5 + 3) % 100);
}

#[test]
fn element_table_is_perfect() {
    assert!(resvg::names::check_elements_perfect());
}

#[test]
fn attribute_table_is_perfect() {
    assert!(resvg::names::check_attributes_perfect());
}

#[test]
fn a_table_with_another_key_is_not_perfect() {
    let mut m = elements();
    assert!(m.check_perfect());
    m.key = ELEMENTS_KEY.wrapping_add(1);
    assert!(!m.check_perfect());
}
