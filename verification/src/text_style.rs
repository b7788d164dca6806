//! How text attributes read: anchors, font properties, decorations and
//! named font sizes.

use vstd::prelude::*;

use crate::strings::{contains_seq, str_contains, str_eq};

verus! {

/// A text anchor.
#[derive(Clone, Copy, PartialEq, Eq, Structural)]
pub enum TextAnchor {
    Start,
    Middle,
    End,
}

/// A font style.
#[derive(Clone, Copy, PartialEq, Eq, Structural)]
pub enum FontStyle {
    Normal,
    Italic,
    Oblique,
}

/// A font variant.
#[derive(Clone, Copy, PartialEq, Eq, Structural)]
pub enum FontVariant {
    Normal,
    SmallCaps,
}

/// A font weight: one of the nine numeric weights, or a keyword.
/// `bolder` and `lighter` are relative to the parent weight.
#[derive(Clone, Copy, PartialEq, Eq, Structural)]
pub enum FontWeight {
    Normal,
    Bold,
    Bolder,
    Lighter,
    W100,
    W200,
    W300,
    W400,
    W500,
    W600,
    W700,
    W800,
    W900,
}

/// A font stretch.
#[derive(Clone, Copy, PartialEq, Eq, Structural)]
pub enum FontStretch {
    Normal,
    Wider,
    Narrower,
    UltraCondensed,
    ExtraCondensed,
    Condensed,
    SemiCondensed,
    SemiExpanded,
    Expanded,
    ExtraExpanded,
    UltraExpanded,
}

/// An attribute's value, or `default` when the attribute is absent.
pub open spec fn value_or(value: Option<&str>, default: Seq<char>) -> Seq<char> {
    match value {
        Some(v) => v@,
        None => default,
    }
}

/// The anchor that a `text-anchor` value names; `start` for any other.
pub open spec fn text_anchor_of(s: Seq<char>) -> TextAnchor {
    if s == "middle"@ {
        TextAnchor::Middle
    } else if s == "end"@ {
        TextAnchor::End
    } else {
        TextAnchor::Start
    }
}

/// The anchor of a `text-anchor` attribute (`start` when absent).
pub fn conv_text_anchor(value: Option<&str>) -> (r: TextAnchor)
    ensures
        r == text_anchor_of(value_or(value, "start"@)),
{
    let av = match value {
        Some(v) => v,
        None => "start",
    };
    if str_eq(av, "start") {
        proof {
            reveal_strlit("start");
            reveal_strlit("middle");
            reveal_strlit("end");
            assert("start"@.len() != "middle"@.len() && "start"@.len() != "end"@.len());
        }
        TextAnchor::Start
    } else if str_eq(av, "middle") {
        TextAnchor::Middle
    } else if str_eq(av, "end") {
        TextAnchor::End
    } else {
        TextAnchor::Start
    }
}

/// The style that a `font-style` value names; normal for any other.
pub open spec fn font_style_of(s: Seq<char>) -> FontStyle {
    if s == "italic"@ {
        FontStyle::Italic
    } else if s == "oblique"@ {
        FontStyle::Oblique
    } else {
        FontStyle::Normal
    }
}

/// The variant that a `font-variant` value names; normal for any other.
pub open spec fn font_variant_of(s: Seq<char>) -> FontVariant {
    if s == "small-caps"@ {
        FontVariant::SmallCaps
    } else {
        FontVariant::Normal
    }
}

/// The weight that a `font-weight` value names; 400 for any other
/// (`bolder` and `lighter` included, which must be resolved before).
pub open spec fn font_weight_of(s: Seq<char>) -> FontWeight {
    if s == "bold"@ || s == "700"@ {
        FontWeight::W700
    } else if s == "100"@ {
        FontWeight::W100
    } else if s == "200"@ {
        FontWeight::W200
    } else if s == "300"@ {
        FontWeight::W300
    } else if s == "500"@ {
        FontWeight::W500
    } else if s == "600"@ {
        FontWeight::W600
    } else if s == "800"@ {
        FontWeight::W800
    } else if s == "900"@ {
        FontWeight::W900
    } else {
        FontWeight::W400
    }
}

/// The stretch that a `font-stretch` value names; normal for any other.
pub open spec fn font_stretch_of(s: Seq<char>) -> FontStretch {
    if s == "wider"@ {
        FontStretch::Wider
    } else if s == "narrower"@ {
        FontStretch::Narrower
    } else if s == "ultra-condensed"@ {
        FontStretch::UltraCondensed
    } else if s == "extra-condensed"@ {
        FontStretch::ExtraCondensed
    } else if s == "condensed"@ {
        FontStretch::Condensed
    } else if s == "semi-condensed"@ {
        FontStretch::SemiCondensed
    } else if s == "semi-expanded"@ {
        FontStretch::SemiExpanded
    } else if s == "expanded"@ {
        FontStretch::Expanded
    } else if s == "extra-expanded"@ {
        FontStretch::ExtraExpanded
    } else if s == "ultra-expanded"@ {
        FontStretch::UltraExpanded
    } else {
        FontStretch::Normal
    }
}

/// The font properties of a text span, but its size.
pub struct FontProps {
    pub family: String,
    pub style: FontStyle,
    pub variant: FontVariant,
    pub weight: FontWeight,
    pub stretch: FontStretch,
}

/// The values of the font attributes of a text span.
pub struct FontAttrs<'a> {
    pub family: Option<&'a str>,
    pub style: Option<&'a str>,
    pub variant: Option<&'a str>,
    pub weight: Option<&'a str>,
    pub stretch: Option<&'a str>,
}

fn conv_font_style(value: Option<&str>) -> (r: FontStyle)
    ensures
        r == font_style_of(value_or(value, "normal"@)),
{
    let s = match value {
        Some(v) => v,
        None => "normal",
    };
    if str_eq(s, "italic") {
        FontStyle::Italic
    } else if str_eq(s, "oblique") {
        FontStyle::Oblique
    } else {
        FontStyle::Normal
    }
}

fn conv_font_variant(value: Option<&str>) -> (r: FontVariant)
    ensures
        r == font_variant_of(value_or(value, "normal"@)),
{
    let s = match value {
        Some(v) => v,
        None => "normal",
    };
    if str_eq(s, "small-caps") {
        FontVariant::SmallCaps
    } else {
        FontVariant::Normal
    }
}

fn conv_font_weight(value: Option<&str>) -> (r: FontWeight)
    ensures
        r == font_weight_of(value_or(value, "normal"@)),
{
    let s = match value {
        Some(v) => v,
        None => "normal",
    };
    if str_eq(s, "bold") || str_eq(s, "700") {
        FontWeight::W700
    } else if str_eq(s, "100") {
        FontWeight::W100
    } else if str_eq(s, "200") {
        FontWeight::W200
    } else if str_eq(s, "300") {
        FontWeight::W300
    } else if str_eq(s, "500") {
        FontWeight::W500
    } else if str_eq(s, "600") {
        FontWeight::W600
    } else if str_eq(s, "800") {
        FontWeight::W800
    } else if str_eq(s, "900") {
        FontWeight::W900
    } else {
        FontWeight::W400
    }
}

fn conv_font_stretch(value: Option<&str>) -> (r: FontStretch)
    ensures
        r == font_stretch_of(value_or(value, "normal"@)),
{
    let s = match value {
        Some(v) => v,
        None => "normal",
    };
    if str_eq(s, "wider") {
        FontStretch::Wider
    } else if str_eq(s, "narrower") {
        FontStretch::Narrower
    } else if str_eq(s, "ultra-condensed") {
        FontStretch::UltraCondensed
    } else if str_eq(s, "extra-condensed") {
        FontStretch::ExtraCondensed
    } else if str_eq(s, "condensed") {
        FontStretch::Condensed
    } else if str_eq(s, "semi-condensed") {
        FontStretch::SemiCondensed
    } else if str_eq(s, "semi-expanded") {
        FontStretch::SemiExpanded
    } else if str_eq(s, "expanded") {
        FontStretch::Expanded
    } else if str_eq(s, "extra-expanded") {
        FontStretch::ExtraExpanded
    } else if str_eq(s, "ultra-expanded") {
        FontStretch::UltraExpanded
    } else {
        FontStretch::Normal
    }
}

/// The font properties of a text span: each attribute defaults to
/// `normal`, the family to `default_family`.
pub fn convert_font(attrs: &FontAttrs, default_family: &str) -> (r: FontProps)
    ensures
        r.family@ == value_or(attrs.family, default_family@),
        r.style == font_style_of(value_or(attrs.style, "normal"@)),
        r.variant == font_variant_of(value_or(attrs.variant, "normal"@)),
        r.weight == font_weight_of(value_or(attrs.weight, "normal"@)),
        r.stretch == font_stretch_of(value_or(attrs.stretch, "normal"@)),
{
    let style = conv_font_style(attrs.style);
    let variant = conv_font_variant(attrs.variant);
    let weight = conv_font_weight(attrs.weight);
    let stretch = conv_font_stretch(attrs.stretch);
    let family = match attrs.family {
        Some(f) => f.to_owned(),
        None => default_family.to_owned(),
    };
    FontProps { family, style, variant, weight, stretch }
}

/// Which text decorations are set.
#[derive(Clone, Copy, PartialEq, Eq, Structural)]
pub struct TextDecoTypes {
    pub has_underline: bool,
    pub has_overline: bool,
    pub has_line_through: bool,
}

/// The decorations of a `text` element: those whose keyword occurs in
/// its `text-decoration` value (empty when absent).
pub fn conv_text_decoration(value: Option<&str>) -> (r: TextDecoTypes)
    ensures
        r.has_underline == contains_seq(value_or(value, ""@), "underline"@),
        r.has_overline == contains_seq(value_or(value, ""@), "overline"@),
        r.has_line_through == contains_seq(value_or(value, ""@), "line-through"@),
{
    let text = match value {
        Some(v) => v,
        None => "",
    };
    TextDecoTypes {
        has_underline: str_contains(text, "underline"),
        has_overline: str_contains(text, "overline"),
        has_line_through: str_contains(text, "line-through"),
    }
}

/// The decorations of a `tspan` element: the one its `text-decoration`
/// value names exactly, if any.
pub fn conv_tspan_decoration(value: Option<&str>) -> (r: TextDecoTypes)
    ensures
        r.has_underline == (value matches Some(v) && v@ == "underline"@),
        r.has_overline == (value matches Some(v) && v@ == "overline"@),
        r.has_line_through == (value matches Some(v) && v@ == "line-through"@),
{
    match value {
        Some(v) => TextDecoTypes {
            has_underline: str_eq(v, "underline"),
            has_overline: str_eq(v, "overline"),
            has_line_through: str_eq(v, "line-through"),
        },
        None => TextDecoTypes { has_underline: false, has_overline: false, has_line_through: false },
    }
}

/// The element whose fill and stroke style a decoration line takes.
#[derive(Clone, Copy, PartialEq, Eq, Structural)]
pub enum DecorationSource {
    Tspan,
    Text,
}

/// The source of one decoration: the `tspan` when it sets the decoration,
/// else the `text` when that sets it, else none.
pub open spec fn decoration_source_of(in_tspan: bool, in_text: bool) -> Option<DecorationSource> {
    if in_tspan {
        Some(DecorationSource::Tspan)
    } else if in_text {
        Some(DecorationSource::Text)
    } else {
        None
    }
}

/// Where each decoration line of a span takes its style from.
#[derive(Clone, Copy, PartialEq, Eq, Structural)]
pub struct DecorationSources {
    pub underline: Option<DecorationSource>,
    pub overline: Option<DecorationSource>,
    pub line_through: Option<DecorationSource>,
}

/// Combines the decorations of a `text` element and of one of its
/// `tspan`s: a decoration set on the `tspan` takes the `tspan`'s style.
pub fn conv_tspan_decoration2(text_dec: TextDecoTypes, tspan_dec: TextDecoTypes) -> (r:
    DecorationSources)
    ensures
        r.underline == decoration_source_of(tspan_dec.has_underline, text_dec.has_underline),
        r.overline == decoration_source_of(tspan_dec.has_overline, text_dec.has_overline),
        r.line_through == decoration_source_of(
            tspan_dec.has_line_through,
            text_dec.has_line_through,
        ),
        tspan_dec.has_underline ==> r.underline == Some(DecorationSource::Tspan),
        tspan_dec.has_overline ==> r.overline == Some(DecorationSource::Tspan),
        tspan_dec.has_line_through ==> r.line_through == Some(DecorationSource::Tspan),
{
    DecorationSources {
        underline: gen_style(tspan_dec.has_underline, text_dec.has_underline),
        overline: gen_style(tspan_dec.has_overline, text_dec.has_overline),
        line_through: gen_style(tspan_dec.has_line_through, text_dec.has_line_through),
    }
}

fn gen_style(in_tspan: bool, in_text: bool) -> (r: Option<DecorationSource>)
    ensures
        r == decoration_source_of(in_tspan, in_text),
{
    if in_tspan {
        Some(DecorationSource::Tspan)
    } else if in_text {
        Some(DecorationSource::Text)
    } else {
        None
    }
}

/// A decoration that the `tspan` sets is drawn with the `tspan`'s style,
/// whatever the `text` element sets; one that only the `text` element
/// sets is drawn with the `text`'s style; one that neither sets is not
/// drawn.
pub proof fn lemma_decoration_sources(text_dec: TextDecoTypes, tspan_dec: TextDecoTypes, r: DecorationSources)
    requires
        r.underline == decoration_source_of(tspan_dec.has_underline, text_dec.has_underline),
        r.overline == decoration_source_of(tspan_dec.has_overline, text_dec.has_overline),
        r.line_through == decoration_source_of(
            tspan_dec.has_line_through,
            text_dec.has_line_through,
        ),
    ensures
        tspan_dec.has_underline ==> r.underline == Some(DecorationSource::Tspan),
        !tspan_dec.has_underline && text_dec.has_underline ==> r.underline == Some(
            DecorationSource::Text,
        ),
        !tspan_dec.has_underline && !text_dec.has_underline ==> r.underline is None,
        tspan_dec.has_overline ==> r.overline == Some(DecorationSource::Tspan),
        !tspan_dec.has_overline && text_dec.has_overline ==> r.overline == Some(
            DecorationSource::Text,
        ),
        !tspan_dec.has_overline && !text_dec.has_overline ==> r.overline is None,
        tspan_dec.has_line_through ==> r.line_through == Some(DecorationSource::Tspan),
        !tspan_dec.has_line_through && text_dec.has_line_through ==> r.line_through == Some(
            DecorationSource::Text,
        ),
        !tspan_dec.has_line_through && !text_dec.has_line_through ==> r.line_through is None,
{
}

/// The Qt font of a span keeps each property's meaning: the same style,
/// each numeric weight the Qt weight of that CSS name (`normal` and
/// `bold` as 400 and 700, `bolder` extra bold, `lighter` light), and
/// `narrower` and `wider` as condensed and expanded.
pub proof fn lemma_qt_font_mappings()
    ensures
        qt_style_of(FontStyle::Normal) == QtFontStyle::StyleNormal,
        qt_style_of(FontStyle::Italic) == QtFontStyle::StyleItalic,
        qt_style_of(FontStyle::Oblique) == QtFontStyle::StyleOblique,
        qt_weight_of(FontWeight::W100) == QtFontWeight::Thin,
        qt_weight_of(FontWeight::W200) == QtFontWeight::ExtraLight,
        qt_weight_of(FontWeight::W300) == QtFontWeight::Light,
        qt_weight_of(FontWeight::W400) == QtFontWeight::Normal,
        qt_weight_of(FontWeight::W500) == QtFontWeight::Medium,
        qt_weight_of(FontWeight::W600) == QtFontWeight::DemiBold,
        qt_weight_of(FontWeight::W700) == QtFontWeight::Bold,
        qt_weight_of(FontWeight::W800) == QtFontWeight::ExtraBold,
        qt_weight_of(FontWeight::W900) == QtFontWeight::Black,
        qt_weight_of(FontWeight::Normal) == qt_weight_of(FontWeight::W400),
        qt_weight_of(FontWeight::Bold) == qt_weight_of(FontWeight::W700),
        qt_weight_of(FontWeight::Bolder) == QtFontWeight::ExtraBold,
        qt_weight_of(FontWeight::Lighter) == QtFontWeight::Light,
        qt_stretch_of(FontStretch::Normal) == QtFontStretch::Unstretched,
        qt_stretch_of(FontStretch::Narrower) == qt_stretch_of(FontStretch::Condensed),
        qt_stretch_of(FontStretch::Condensed) == QtFontStretch::Condensed,
        qt_stretch_of(FontStretch::Wider) == qt_stretch_of(FontStretch::Expanded),
        qt_stretch_of(FontStretch::Expanded) == QtFontStretch::Expanded,
        qt_stretch_of(FontStretch::UltraCondensed) == QtFontStretch::UltraCondensed,
        qt_stretch_of(FontStretch::ExtraCondensed) == QtFontStretch::ExtraCondensed,
        qt_stretch_of(FontStretch::SemiCondensed) == QtFontStretch::SemiCondensed,
        qt_stretch_of(FontStretch::SemiExpanded) == QtFontStretch::SemiExpanded,
        qt_stretch_of(FontStretch::ExtraExpanded) == QtFontStretch::ExtraExpanded,
        qt_stretch_of(FontStretch::UltraExpanded) == QtFontStretch::UltraExpanded,
{
}

/// A `text-anchor` of `middle` or `end` names that anchor; anything else,
/// and no value, is `start`.
pub proof fn lemma_text_anchor(s: Seq<char>)
    ensures
        text_anchor_of("middle"@) == TextAnchor::Middle,
        text_anchor_of("end"@) == TextAnchor::End,
        s != "middle"@ && s != "end"@ ==> text_anchor_of(s) == TextAnchor::Start,
{
    reveal_strlit("middle");
    reveal_strlit("end");
    assert("middle"@.len() != "end"@.len());
}

/// The scale step of a named `font-size` relative to the parent size
/// (each step scales by 1.2); 0 for an unknown name.
pub open spec fn named_font_size_factor_of(s: Seq<char>) -> int {
    if s == "xx-small"@ {
        -3
    } else if s == "x-small"@ {
        -2
    } else if s == "small"@ || s == "smaller"@ {
        -1
    } else if s == "large"@ || s == "larger"@ {
        1
    } else if s == "x-large"@ {
        2
    } else if s == "xx-large"@ {
        3
    } else {
        0
    }
}

/// The scale step of a named `font-size`.
pub fn named_font_size_factor(name: &str) -> (r: i32)
    ensures
        r == named_font_size_factor_of(name@),
{
    proof {
        reveal_strlit("medium");
        reveal_strlit("xx-small");
        reveal_strlit("x-small");
        reveal_strlit("small");
        reveal_strlit("smaller");
        reveal_strlit("large");
        reveal_strlit("larger");
        reveal_strlit("x-large");
        reveal_strlit("xx-large");
        assert("medium"@.len() == 6 && "xx-small"@.len() == 8 && "x-small"@.len() == 7);
        assert("small"@.len() == 5 && "smaller"@.len() == 7 && "large"@.len() == 5);
        assert("larger"@.len() == 6 && "x-large"@.len() == 7 && "xx-large"@.len() == 8);
        assert("medium"@[0] != "larger"@[0]);
        assert("small"@[0] != "large"@[0]);
        assert("x-small"@[0] != "smaller"@[0] && "x-small"@[2] != "x-large"@[2]);
        assert("smaller"@[0] != "x-large"@[0]);
        assert("xx-small"@[3] != "xx-large"@[3]);
    }
    if str_eq(name, "xx-small") {
        -3
    } else if str_eq(name, "x-small") {
        -2
    } else if str_eq(name, "small") {
        -1
    } else if str_eq(name, "medium") {
        0
    } else if str_eq(name, "large") {
        1
    } else if str_eq(name, "x-large") {
        2
    } else if str_eq(name, "xx-large") {
        3
    } else if str_eq(name, "smaller") {
        -1
    } else if str_eq(name, "larger") {
        1
    } else {
        0
    }
}

/// A font style of the Qt text backend.
#[derive(Clone, Copy, PartialEq, Eq, Structural)]
pub enum QtFontStyle {
    StyleNormal,
    StyleItalic,
    StyleOblique,
}

/// A font weight of the Qt text backend.
#[derive(Clone, Copy, PartialEq, Eq, Structural)]
pub enum QtFontWeight {
    Thin,
    ExtraLight,
    Light,
    Normal,
    Medium,
    DemiBold,
    Bold,
    ExtraBold,
    Black,
}

/// A font stretch of the Qt text backend.
#[derive(Clone, Copy, PartialEq, Eq, Structural)]
pub enum QtFontStretch {
    UltraCondensed,
    ExtraCondensed,
    Condensed,
    SemiCondensed,
    Unstretched,
    SemiExpanded,
    Expanded,
    ExtraExpanded,
    UltraExpanded,
}

/// The settings of a Qt font, but its size.
pub struct QtFont {
    pub family: String,
    pub style: QtFontStyle,
    pub small_caps: bool,
    pub weight: QtFontWeight,
    pub stretch: QtFontStretch,
}

/// The Qt style of a font style.
pub open spec fn qt_style_of(s: FontStyle) -> QtFontStyle {
    match s {
        FontStyle::Normal => QtFontStyle::StyleNormal,
        FontStyle::Italic => QtFontStyle::StyleItalic,
        FontStyle::Oblique => QtFontStyle::StyleOblique,
    }
}

/// The Qt weight of a font weight: the CSS weight names of the nine
/// steps; `bolder` is extra bold and `lighter` light.
pub open spec fn qt_weight_of(w: FontWeight) -> QtFontWeight {
    match w {
        FontWeight::W100 => QtFontWeight::Thin,
        FontWeight::W200 => QtFontWeight::ExtraLight,
        FontWeight::W300 => QtFontWeight::Light,
        FontWeight::W400 => QtFontWeight::Normal,
        FontWeight::W500 => QtFontWeight::Medium,
        FontWeight::W600 => QtFontWeight::DemiBold,
        FontWeight::W700 => QtFontWeight::Bold,
        FontWeight::W800 => QtFontWeight::ExtraBold,
        FontWeight::W900 => QtFontWeight::Black,
        FontWeight::Normal => QtFontWeight::Normal,
        FontWeight::Bold => QtFontWeight::Bold,
        FontWeight::Bolder => QtFontWeight::ExtraBold,
        FontWeight::Lighter => QtFontWeight::Light,
    }
}

/// The Qt stretch of a font stretch: `narrower` counts as condensed and
/// `wider` as expanded.
pub open spec fn qt_stretch_of(s: FontStretch) -> QtFontStretch {
    match s {
        FontStretch::Normal => QtFontStretch::Unstretched,
        FontStretch::Narrower | FontStretch::Condensed => QtFontStretch::Condensed,
        FontStretch::UltraCondensed => QtFontStretch::UltraCondensed,
        FontStretch::ExtraCondensed => QtFontStretch::ExtraCondensed,
        FontStretch::SemiCondensed => QtFontStretch::SemiCondensed,
        FontStretch::SemiExpanded => QtFontStretch::SemiExpanded,
        FontStretch::Wider | FontStretch::Expanded => QtFontStretch::Expanded,
        FontStretch::ExtraExpanded => QtFontStretch::ExtraExpanded,
        FontStretch::UltraExpanded => QtFontStretch::UltraExpanded,
    }
}

/// The Qt font that draws a span in these font properties: same family,
/// small caps for the small-caps variant.
pub fn init_font(font: &FontProps) -> (r: QtFont)
    ensures
        r.family@ == font.family@,
        r.style == qt_style_of(font.style),
        r.small_caps == (font.variant == FontVariant::SmallCaps),
        r.weight == qt_weight_of(font.weight),
        r.stretch == qt_stretch_of(font.stretch),
{
    let style = match font.style {
        FontStyle::Normal => QtFontStyle::StyleNormal,
        FontStyle::Italic => QtFontStyle::StyleItalic,
        FontStyle::Oblique => QtFontStyle::StyleOblique,
    };
    let small_caps = match font.variant {
        FontVariant::SmallCaps => true,
        FontVariant::Normal => false,
    };
    let weight = match font.weight {
        FontWeight::W100 => QtFontWeight::Thin,
        FontWeight::W200 => QtFontWeight::ExtraLight,
        FontWeight::W300 => QtFontWeight::Light,
        FontWeight::W400 => QtFontWeight::Normal,
        FontWeight::W500 => QtFontWeight::Medium,
        FontWeight::W600 => QtFontWeight::DemiBold,
        FontWeight::W700 => QtFontWeight::Bold,
        FontWeight::W800 => QtFontWeight::ExtraBold,
        FontWeight::W900 => QtFontWeight::Black,
        FontWeight::Normal => QtFontWeight::Normal,
        FontWeight::Bold => QtFontWeight::Bold,
        FontWeight::Bolder => QtFontWeight::ExtraBold,
        FontWeight::Lighter => QtFontWeight::Light,
    };
    let stretch = match font.stretch {
        FontStretch::Normal => QtFontStretch::Unstretched,
        FontStretch::Narrower | FontStretch::Condensed => QtFontStretch::Condensed,
        FontStretch::UltraCondensed => QtFontStretch::UltraCondensed,
        FontStretch::ExtraCondensed => QtFontStretch::ExtraCondensed,
        FontStretch::SemiCondensed => QtFontStretch::SemiCondensed,
        FontStretch::SemiExpanded => QtFontStretch::SemiExpanded,
        FontStretch::Wider | FontStretch::Expanded => QtFontStretch::Expanded,
        FontStretch::ExtraExpanded => QtFontStretch::ExtraExpanded,
        FontStretch::UltraExpanded => QtFontStretch::UltraExpanded,
    };
    QtFont { family: font.family.clone(), style, small_caps, weight, stretch }
}

} // verus!
