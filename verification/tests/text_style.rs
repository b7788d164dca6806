use resvg::text_style::{
    conv_text_anchor, conv_text_decoration, conv_tspan_decoration, conv_tspan_decoration2,
    convert_font, named_font_size_factor, DecorationSource, FontAttrs, FontStretch, FontStyle,
    FontVariant, FontWeight, TextAnchor, TextDecoTypes,
};
use resvg::text_style::{init_font, QtFontStretch, QtFontStyle, QtFontWeight};

#[test]
fn anchors() {
    assert!(conv_text_anchor(None) == TextAnchor::Start);
    assert!(conv_text_anchor(Some("start")) == TextAnchor::Start);
    assert!(conv_text_anchor(Some("middle")) == TextAnchor::Middle);
    assert!(conv_text_anchor(Some("end")) == TextAnchor::End);
    assert!(conv_text_anchor(Some("End")) == TextAnchor::Start);
}

fn attrs<'a>(
    family: Option<&'a str>,
    style: Option<&'a str>,
    variant: Option<&'a str>,
    weight: Option<&'a str>,
    stretch: Option<&'a str>,
) -> FontAttrs<'a> {
    FontAttrs { family, style, variant, weight, stretch }
}

#[test]
fn font_defaults() {
    let f = convert_font(&attrs(None, None, None, None, None), "Times New Roman");
    assert_eq!(f.family, "Times New Roman");
    assert!(f.style == FontStyle::Normal);
    assert!(f.variant == FontVariant::Normal);
    assert!(f.weight == FontWeight::W400);
    assert!(f.stretch == FontStretch::Normal);
}

#[test]
fn font_values() {
    let f = convert_font(
        &attrs(Some("Arial"), Some("italic"), Some("small-caps"), Some("bold"), Some("condensed")),
        "Times New Roman",
    );
    assert_eq!(f.family, "Arial");
    assert!(f.style == FontStyle::Italic);
    assert!(f.variant == FontVariant::SmallCaps);
    assert!(f.weight == FontWeight::W700);
    assert!(f.stretch == FontStretch::Condensed);

    let weights = [
        ("100", FontWeight::W100), ("200", FontWeight::W200), ("300", FontWeight::W300),
        ("400", FontWeight::W400), ("500", FontWeight::W500), ("600", FontWeight::W600),
        ("700", FontWeight::W700), ("800", FontWeight::W800), ("900", FontWeight::W900),
        ("normal", FontWeight::W400), ("bolder", FontWeight::W400), ("lighter", FontWeight::W400),
        ("heavy", FontWeight::W400),
    ];
    for (s, w) in weights.iter() {
        let f = convert_font(&attrs(None, None, None, Some(s), None), "x");
        assert!(f.weight == *w, "weight {}", s);
    }
    let stretches = [
        ("wider", FontStretch::Wider), ("narrower", FontStretch::Narrower),
        ("ultra-condensed", FontStretch::UltraCondensed),
        ("extra-condensed", FontStretch::ExtraCondensed),
        ("semi-condensed", FontStretch::SemiCondensed),
        ("semi-expanded", FontStretch::SemiExpanded), ("expanded", FontStretch::Expanded),
        ("extra-expanded", FontStretch::ExtraExpanded),
        ("ultra-expanded", FontStretch::UltraExpanded), ("normal", FontStretch::Normal),
        ("bogus", FontStretch::Normal),
    ];
    for (s, v) in stretches.iter() {
        let f = convert_font(&attrs(None, None, None, None, Some(s)), "x");
        assert!(f.stretch == *v, "stretch {}", s);
    }
    let f = convert_font(&attrs(None, Some("oblique"), Some("normal"), None, None), "x");
    assert!(f.style == FontStyle::Oblique);
    assert!(f.variant == FontVariant::Normal);
}

#[test]
fn text_decorations_by_substring() {
    let d = conv_text_decoration(Some("underline line-through"));
    assert!(d.has_underline && !d.has_overline && d.has_line_through);
    let d = conv_text_decoration(None);
    assert!(!d.has_underline && !d.has_overline && !d.has_line_through);
    let d = conv_text_decoration(Some("overline"));
    assert!(!d.has_underline && d.has_overline && !d.has_line_through);
}

#[test]
fn tspan_decorations_by_equality() {
    let d = conv_tspan_decoration(Some("underline"));
    assert!(d.has_underline && !d.has_overline && !d.has_line_through);
    let d = conv_tspan_decoration(Some("underline overline"));
    assert!(!d.has_underline && !d.has_overline && !d.has_line_through);
    let d = conv_tspan_decoration(Some("line-through"));
    assert!(!d.has_underline && !d.has_overline && d.has_line_through);
    let d = conv_tspan_decoration(None);
    assert!(!d.has_underline && !d.has_overline && !d.has_line_through);
}

#[test]
fn decoration_sources() {
    let text = TextDecoTypes { has_underline: true, has_overline: true, has_line_through: false };
    let tspan = TextDecoTypes { has_underline: true, has_overline: false, has_line_through: false };
    let s = conv_tspan_decoration2(text, tspan);
    assert!(s.underline == Some(DecorationSource::Tspan));
    assert!(s.overline == Some(DecorationSource::Text));
    assert!(s.line_through == None);
}

#[test]
fn named_sizes() {
    let cases = [
        ("xx-small", -3), ("x-small", -2), ("small", -1), ("medium", 0), ("large", 1),
        ("x-large", 2), ("xx-large", 3), ("smaller", -1), ("larger", 1), ("huge", 0), ("", 0),
    ];
    for (s, f) in cases.iter() {
        assert_eq!(named_font_size_factor(s), *f, "name {}", s);
    }
}

#[test]
fn qt_font_of_bold_condensed_small_caps() {
    let f = convert_font(
        &attrs(Some("Arial"), Some("oblique"), Some("small-caps"), Some("bold"), Some("narrower")),
        "Times New Roman",
    );
    let q = init_font(&f);
    assert_eq!(q.family, "Arial");
    assert!(q.style == QtFontStyle::StyleOblique);
    assert!(q.small_caps);
    assert!(q.weight == QtFontWeight::Bold);
    assert!(q.stretch == QtFontStretch::Condensed);
}

#[test]
fn qt_font_of_defaults() {
    let q = init_font(&convert_font(&attrs(None, None, None, Some("100"), Some("wider")), "Serif"));
    assert_eq!(q.family, "Serif");
    assert!(q.style == QtFontStyle::StyleNormal);
    assert!(!q.small_caps);
    assert!(q.weight == QtFontWeight::Thin);
    assert!(q.stretch == QtFontStretch::Expanded);
}

#[test]
fn qt_weights_of_keywords() {
    let props = |weight| resvg::text_style::FontProps {
        family: "Arial".to_string(),
        style: FontStyle::Normal,
        variant: FontVariant::Normal,
        weight,
        stretch: FontStretch::Normal,
    };
    assert!(init_font(&props(FontWeight::Normal)).weight == QtFontWeight::Normal);
    assert!(init_font(&props(FontWeight::Bold)).weight == QtFontWeight::Bold);
    assert!(init_font(&props(FontWeight::Bolder)).weight == QtFontWeight::ExtraBold);
    assert!(init_font(&props(FontWeight::Lighter)).weight == QtFontWeight::Light);
    assert!(init_font(&props(FontWeight::W600)).weight == QtFontWeight::DemiBold);
    assert!(init_font(&props(FontWeight::W900)).weight == QtFontWeight::Black);
}
