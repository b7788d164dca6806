//! SVG element and attribute names, with their perfect-hash tables.

use vstd::prelude::*;

use crate::phf::{NameMap, TableValue, disps_fit, sip13_hash, spec_get_index};

verus! {

/// An SVG element name.
#[derive(Clone, Copy, PartialEq, Eq, Structural)]
pub enum EId {
    A,
    Circle,
    ClipPath,
    Defs,
    Ellipse,
    FeBlend,
    FeColorMatrix,
    FeComponentTransfer,
    FeComposite,
    FeConvolveMatrix,
    FeDiffuseLighting,
    FeDisplacementMap,
    FeDistantLight,
    FeFlood,
    FeFuncA,
    FeFuncB,
    FeFuncG,
    FeFuncR,
    FeGaussianBlur,
    FeImage,
    FeMerge,
    FeMergeNode,
    FeMorphology,
    FeOffset,
    FePointLight,
    FeSpecularLighting,
    FeSpotLight,
    FeTile,
    FeTurbulence,
    Filter,
    G,
    Image,
    Line,
    LinearGradient,
    Marker,
    Mask,
    Path,
    Pattern,
    Polygon,
    Polyline,
    RadialGradient,
    Rect,
    Stop,
    Style,
    Svg,
    Switch,
    Symbol,
    Text,
    TextPath,
    Tref,
    Tspan,
    Use,
}

/// The number of element names.
pub const ELEMENTS_LEN: usize = 52;

/// The hash key of the element table.
pub const ELEMENTS_KEY: u64 = 3558916427560184125;

impl EId {
    /// The SVG name.
    pub open spec fn name(self) -> Seq<char> {
        match self {
            EId::A => "a"@,
            EId::Circle => "circle"@,
            EId::ClipPath => "clipPath"@,
            EId::Defs => "defs"@,
            EId::Ellipse => "ellipse"@,
            EId::FeBlend => "feBlend"@,
            EId::FeColorMatrix => "feColorMatrix"@,
            EId::FeComponentTransfer => "feComponentTransfer"@,
            EId::FeComposite => "feComposite"@,
            EId::FeConvolveMatrix => "feConvolveMatrix"@,
            EId::FeDiffuseLighting => "feDiffuseLighting"@,
            EId::FeDisplacementMap => "feDisplacementMap"@,
            EId::FeDistantLight => "feDistantLight"@,
            EId::FeFlood => "feFlood"@,
            EId::FeFuncA => "feFuncA"@,
            EId::FeFuncB => "feFuncB"@,
            EId::FeFuncG => "feFuncG"@,
            EId::FeFuncR => "feFuncR"@,
            EId::FeGaussianBlur => "feGaussianBlur"@,
            EId::FeImage => "feImage"@,
            EId::FeMerge => "feMerge"@,
            EId::FeMergeNode => "feMergeNode"@,
            EId::FeMorphology => "feMorphology"@,
            EId::FeOffset => "feOffset"@,
            EId::FePointLight => "fePointLight"@,
            EId::FeSpecularLighting => "feSpecularLighting"@,
            EId::FeSpotLight => "feSpotLight"@,
            EId::FeTile => "feTile"@,
            EId::FeTurbulence => "feTurbulence"@,
            EId::Filter => "filter"@,
            EId::G => "g"@,
            EId::Image => "image"@,
            EId::Line => "line"@,
            EId::LinearGradient => "linearGradient"@,
            EId::Marker => "marker"@,
            EId::Mask => "mask"@,
            EId::Path => "path"@,
            EId::Pattern => "pattern"@,
            EId::Polygon => "polygon"@,
            EId::Polyline => "polyline"@,
            EId::RadialGradient => "radialGradient"@,
            EId::Rect => "rect"@,
            EId::Stop => "stop"@,
            EId::Style => "style"@,
            EId::Svg => "svg"@,
            EId::Switch => "switch"@,
            EId::Symbol => "symbol"@,
            EId::Text => "text"@,
            EId::TextPath => "textPath"@,
            EId::Tref => "tref"@,
            EId::Tspan => "tspan"@,
            EId::Use => "use"@,
        }
    }

    /// The place of this value in the element table.
    pub open spec fn position(self) -> int {
        match self {
            EId::A => 12,
            EId::Circle => 17,
            EId::ClipPath => 30,
            EId::Defs => 19,
            EId::Ellipse => 29,
            EId::FeBlend => 33,
            EId::FeColorMatrix => 35,
            EId::FeComponentTransfer => 26,
            EId::FeComposite => 44,
            EId::FeConvolveMatrix => 0,
            EId::FeDiffuseLighting => 6,
            EId::FeDisplacementMap => 47,
            EId::FeDistantLight => 48,
            EId::FeFlood => 24,
            EId::FeFuncA => 15,
            EId::FeFuncB => 3,
            EId::FeFuncG => 28,
            EId::FeFuncR => 11,
            EId::FeGaussianBlur => 23,
            EId::FeImage => 40,
            EId::FeMerge => 31,
            EId::FeMergeNode => 41,
            EId::FeMorphology => 39,
            EId::FeOffset => 42,
            EId::FePointLight => 18,
            EId::FeSpecularLighting => 37,
            EId::FeSpotLight => 32,
            EId::FeTile => 20,
            EId::FeTurbulence => 36,
            EId::Filter => 51,
            EId::G => 7,
            EId::Image => 21,
            EId::Line => 46,
            EId::LinearGradient => 27,
            EId::Marker => 5,
            EId::Mask => 49,
            EId::Path => 10,
            EId::Pattern => 9,
            EId::Polygon => 43,
            EId::Polyline => 25,
            EId::RadialGradient => 45,
            EId::Rect => 4,
            EId::Stop => 22,
            EId::Style => 2,
            EId::Svg => 34,
            EId::Switch => 38,
            EId::Symbol => 8,
            EId::Text => 50,
            EId::TextPath => 13,
            EId::Tref => 16,
            EId::Tspan => 1,
            EId::Use => 14,
        }
    }
}

impl TableValue for EId {
    fn same_as(&self, other: &Self) -> (r: bool) {
        *self == *other
    }
}

/// The value at place `i` of the element table.
pub open spec fn element_at(i: int) -> EId {
    if i == 0 {
        EId::FeConvolveMatrix
    } else if i == 1 {
        EId::Tspan
    } else if i == 2 {
        EId::Style
    } else if i == 3 {
        EId::FeFuncB
    } else if i == 4 {
        EId::Rect
    } else if i == 5 {
        EId::Marker
    } else if i == 6 {
        EId::FeDiffuseLighting
    } else if i == 7 {
        EId::G
    } else if i == 8 {
        EId::Symbol
    } else if i == 9 {
        EId::Pattern
    } else if i == 10 {
        EId::Path
    } else if i == 11 {
        EId::FeFuncR
    } else if i == 12 {
        EId::A
    } else if i == 13 {
        EId::TextPath
    } else if i == 14 {
        EId::Use
    } else if i == 15 {
        EId::FeFuncA
    } else if i == 16 {
        EId::Tref
    } else if i == 17 {
        EId::Circle
    } else if i == 18 {
        EId::FePointLight
    } else if i == 19 {
        EId::Defs
    } else if i == 20 {
        EId::FeTile
    } else if i == 21 {
        EId::Image
    } else if i == 22 {
        EId::Stop
    } else if i == 23 {
        EId::FeGaussianBlur
    } else if i == 24 {
        EId::FeFlood
    } else if i == 25 {
        EId::Polyline
    } else if i == 26 {
        EId::FeComponentTransfer
    } else if i == 27 {
        EId::LinearGradient
    } else if i == 28 {
        EId::FeFuncG
    } else if i == 29 {
        EId::Ellipse
    } else if i == 30 {
        EId::ClipPath
    } else if i == 31 {
        EId::FeMerge
    } else if i == 32 {
        EId::FeSpotLight
    } else if i == 33 {
        EId::FeBlend
    } else if i == 34 {
        EId::Svg
    } else if i == 35 {
        EId::FeColorMatrix
    } else if i == 36 {
        EId::FeTurbulence
    } else if i == 37 {
        EId::FeSpecularLighting
    } else if i == 38 {
        EId::Switch
    } else if i == 39 {
        EId::FeMorphology
    } else if i == 40 {
        EId::FeImage
    } else if i == 41 {
        EId::FeMergeNode
    } else if i == 42 {
        EId::FeOffset
    } else if i == 43 {
        EId::Polygon
    } else if i == 44 {
        EId::FeComposite
    } else if i == 45 {
        EId::RadialGradient
    } else if i == 46 {
        EId::Line
    } else if i == 47 {
        EId::FeDisplacementMap
    } else if i == 48 {
        EId::FeDistantLight
    } else if i == 49 {
        EId::Mask
    } else if i == 50 {
        EId::Text
    } else {
        EId::Filter
    }
}

/// Entry `i` of the element table.
fn element_entry(i: usize) -> (r: (&'static str, EId))
    requires
        i < ELEMENTS_LEN,
    ensures
        r.0@ == element_at(i as int).name(),
        r.1 == element_at(i as int),
{
    if i == 0 {
        ("feConvolveMatrix", EId::FeConvolveMatrix)
    } else if i == 1 {
        ("tspan", EId::Tspan)
    } else if i == 2 {
        ("style", EId::Style)
    } else if i == 3 {
        ("feFuncB", EId::FeFuncB)
    } else if i == 4 {
        ("rect", EId::Rect)
    } else if i == 5 {
        ("marker", EId::Marker)
    } else if i == 6 {
        ("feDiffuseLighting", EId::FeDiffuseLighting)
    } else if i == 7 {
        ("g", EId::G)
    } else if i == 8 {
        ("symbol", EId::Symbol)
    } else if i == 9 {
        ("pattern", EId::Pattern)
    } else if i == 10 {
        ("path", EId::Path)
    } else if i == 11 {
        ("feFuncR", EId::FeFuncR)
    } else if i == 12 {
        ("a", EId::A)
    } else if i == 13 {
        ("textPath", EId::TextPath)
    } else if i == 14 {
        ("use", EId::Use)
    } else if i == 15 {
        ("feFuncA", EId::FeFuncA)
    } else if i == 16 {
        ("tref", EId::Tref)
    } else if i == 17 {
        ("circle", EId::Circle)
    } else if i == 18 {
        ("fePointLight", EId::FePointLight)
    } else if i == 19 {
        ("defs", EId::Defs)
    } else if i == 20 {
        ("feTile", EId::FeTile)
    } else if i == 21 {
        ("image", EId::Image)
    } else if i == 22 {
        ("stop", EId::Stop)
    } else if i == 23 {
        ("feGaussianBlur", EId::FeGaussianBlur)
    } else if i == 24 {
        ("feFlood", EId::FeFlood)
    } else if i == 25 {
        ("polyline", EId::Polyline)
    } else if i == 26 {
        ("feComponentTransfer", EId::FeComponentTransfer)
    } else if i == 27 {
        ("linearGradient", EId::LinearGradient)
    } else if i == 28 {
        ("feFuncG", EId::FeFuncG)
    } else if i == 29 {
        ("ellipse", EId::Ellipse)
    } else if i == 30 {
        ("clipPath", EId::ClipPath)
    } else if i == 31 {
        ("feMerge", EId::FeMerge)
    } else if i == 32 {
        ("feSpotLight", EId::FeSpotLight)
    } else if i == 33 {
        ("feBlend", EId::FeBlend)
    } else if i == 34 {
        ("svg", EId::Svg)
    } else if i == 35 {
        ("feColorMatrix", EId::FeColorMatrix)
    } else if i == 36 {
        ("feTurbulence", EId::FeTurbulence)
    } else if i == 37 {
        ("feSpecularLighting", EId::FeSpecularLighting)
    } else if i == 38 {
        ("switch", EId::Switch)
    } else if i == 39 {
        ("feMorphology", EId::FeMorphology)
    } else if i == 40 {
        ("feImage", EId::FeImage)
    } else if i == 41 {
        ("feMergeNode", EId::FeMergeNode)
    } else if i == 42 {
        ("feOffset", EId::FeOffset)
    } else if i == 43 {
        ("polygon", EId::Polygon)
    } else if i == 44 {
        ("feComposite", EId::FeComposite)
    } else if i == 45 {
        ("radialGradient", EId::RadialGradient)
    } else if i == 46 {
        ("line", EId::Line)
    } else if i == 47 {
        ("feDisplacementMap", EId::FeDisplacementMap)
    } else if i == 48 {
        ("feDistantLight", EId::FeDistantLight)
    } else if i == 49 {
        ("mask", EId::Mask)
    } else if i == 50 {
        ("text", EId::Text)
    } else {
        ("filter", EId::Filter)
    }
}

/// The displacement pairs of the element table.
pub open spec fn element_disps() -> Seq<(u32, u32)> {
    seq![(1u32, 13u32), (5u32, 3u32), (0u32, 19u32), (6u32, 24u32), (0u32, 0u32), (0u32, 3u32), (0u32, 1u32), (11u32, 10u32), (0u32, 21u32), (0u32, 0u32), (5u32, 0u32)]
}

fn element_disps_vec() -> (v: Vec<(u32, u32)>)
    ensures
        v@ == element_disps(),
{
    let mut v: Vec<(u32, u32)> = Vec::new();
    v.push((1, 13));
    v.push((5, 3));
    v.push((0, 19));
    v.push((6, 24));
    v.push((0, 0));
    v.push((0, 3));
    v.push((0, 1));
    v.push((11, 10));
    v.push((0, 21));
    v.push((0, 0));
    v.push((5, 0));
    assert(v@ =~= element_disps());
    v
}

proof fn lemma_element_disps_fit()
    ensures
        disps_fit(element_disps()),
{
    assert forall|i: int| 0 <= i < element_disps().len() implies 0x1f_ffff * (
    #[trigger] element_disps()[i]).0 + element_disps()[i].1 + 0x1f_ffff <= u32::MAX by {
        if i == 0 {
        } else if i == 1 {
        } else if i == 2 {
        } else if i == 3 {
        } else if i == 4 {
        } else if i == 5 {
        } else if i == 6 {
        } else if i == 7 {
        } else if i == 8 {
        } else if i == 9 {
        } else if i == 10 {
        }
    }
}

proof fn lemma_element_at_position(v: EId)
    ensures
        0 <= v.position() < ELEMENTS_LEN,
        element_at(v.position()) == v,
{
    match v {
        EId::A => {},
        EId::Circle => {},
        EId::ClipPath => {},
        EId::Defs => {},
        EId::Ellipse => {},
        EId::FeBlend => {},
        EId::FeColorMatrix => {},
        EId::FeComponentTransfer => {},
        EId::FeComposite => {},
        EId::FeConvolveMatrix => {},
        EId::FeDiffuseLighting => {},
        EId::FeDisplacementMap => {},
        EId::FeDistantLight => {},
        EId::FeFlood => {},
        EId::FeFuncA => {},
        EId::FeFuncB => {},
        EId::FeFuncG => {},
        EId::FeFuncR => {},
        EId::FeGaussianBlur => {},
        EId::FeImage => {},
        EId::FeMerge => {},
        EId::FeMergeNode => {},
        EId::FeMorphology => {},
        EId::FeOffset => {},
        EId::FePointLight => {},
        EId::FeSpecularLighting => {},
        EId::FeSpotLight => {},
        EId::FeTile => {},
        EId::FeTurbulence => {},
        EId::Filter => {},
        EId::G => {},
        EId::Image => {},
        EId::Line => {},
        EId::LinearGradient => {},
        EId::Marker => {},
        EId::Mask => {},
        EId::Path => {},
        EId::Pattern => {},
        EId::Polygon => {},
        EId::Polyline => {},
        EId::RadialGradient => {},
        EId::Rect => {},
        EId::Stop => {},
        EId::Style => {},
        EId::Svg => {},
        EId::Switch => {},
        EId::Symbol => {},
        EId::Text => {},
        EId::TextPath => {},
        EId::Tref => {},
        EId::Tspan => {},
        EId::Use => {},
    }
}

/// Builds the element table.
pub fn elements() -> (m: NameMap<EId>)
    ensures
        m.wf(),
        m.key == ELEMENTS_KEY,
        m.disps@ == element_disps(),
        m.entries@.len() == ELEMENTS_LEN,
        forall|i: int|
            0 <= i < ELEMENTS_LEN ==> m.name_at(i) == (#[trigger] element_at(i)).name() && m.value_at(i)
                == element_at(i),
{
    let mut entries: Vec<(&'static str, EId)> = Vec::new();
    let mut i: usize = 0;
    while i < ELEMENTS_LEN
        invariant
            i <= ELEMENTS_LEN,
            entries@.len() == i,
            forall|j: int|
                0 <= j < i ==> entries@[j].0@ == (#[trigger] element_at(j)).name() && entries@[j].1
                    == element_at(j),
        decreases ELEMENTS_LEN - i,
    {
        entries.push(element_entry(i));
        i += 1;
    }
    let disps = element_disps_vec();
    proof {
        lemma_element_disps_fit();
    }
    NameMap { key: ELEMENTS_KEY, disps, entries }
}

/// The only table place that a lookup of `text` probes.
pub open spec fn element_index(text: Seq<char>) -> int {
    spec_get_index(sip13_hash(text, ELEMENTS_KEY), element_disps(), ELEMENTS_LEN as nat)
}

/// What a lookup of `text` in the element table gives: the value at the
/// probed place when its name is `text`, else nothing.
pub open spec fn element_lookup(text: Seq<char>) -> Option<EId> {
    let i = element_index(text);
    if element_at(i).name() == text {
        Some(element_at(i))
    } else {
        None
    }
}

/// The hash parameters of the element table send every name to its own place.
pub open spec fn elements_perfect() -> bool {
    forall|i: int| 0 <= i < ELEMENTS_LEN ==> #[trigger] element_index(element_at(i).name()) == i
}

/// Checks that the element table's hash parameters are perfect: every name
/// is found at its own place, so that each value's name parses back to it.
pub fn check_elements_perfect() -> (r: bool)
    ensures
        r == elements_perfect(),
{
    let m = elements();
    let r = m.check_perfect();
    proof {
        assert forall|i: int| 0 <= i < ELEMENTS_LEN implies #[trigger] m.index_of(m.name_at(i)) == element_index(
            element_at(i).name(),
        ) by {
            assert(m.name_at(i) == element_at(i).name());
        }
        if r {
            assert forall|i: int| 0 <= i < ELEMENTS_LEN implies #[trigger] element_index(element_at(i).name()) == i by {
                assert(m.index_of(m.name_at(i)) == i);
            }
        } else {
            let i = choose|i: int| 0 <= i < m.entries@.len() && #[trigger] m.index_of(m.name_at(i)) != i;
            assert(element_index(element_at(i).name()) != i);
        }
    }
    r
}

impl EId {
    /// Parses an element name.
    pub fn from_str(text: &str) -> (r: Option<EId>)
        ensures
            r == element_lookup(text@),
    {
        let m = elements();
        match m.get(text) {
            Some(v) => Some(*v),
            None => None,
        }
    }

    /// The element name.
    pub fn to_str(&self) -> (r: &'static str)
        ensures
            r@ == self.name(),
    {
        let m = elements();
        proof {
            lemma_element_at_position(*self);
            assert(m.value_at(self.position()) == *self);
        }
        let r = m.key(self);
        proof {
            let i = choose|i: int|
                0 <= i < m.entries@.len() && m.value_at(i) == *self && r@ == m.name_at(i) && forall|
                    k: int,
                | 0 <= k < i ==> m.value_at(k) != *self;
            assert(element_at(i) == *self);
        }
        r
    }
}

/// A name that the element lookup accepts is the name of the value it gives.
pub proof fn lemma_element_lookup_sound(text: Seq<char>)
    ensures
        element_lookup(text) matches Some(v) ==> v.name() == text,
{
}

/// When the table's hash parameters are perfect for its names, every
/// value is found by its own name.
pub proof fn lemma_element_lookup_complete(v: EId)
    requires
        elements_perfect(),
    ensures
        element_lookup(v.name()) == Some(v),
{
    lemma_element_at_position(v);
    assert(element_index(element_at(v.position()).name()) == v.position());
}

/// When the table's hash parameters are perfect for its names, no two
/// values share a name.
pub proof fn lemma_element_names_distinct(a: EId, b: EId)
    requires
        elements_perfect(),
        a.name() == b.name(),
    ensures
        a == b,
{
    lemma_element_lookup_complete(a);
    lemma_element_lookup_complete(b);
}

/// An SVG attribute name.
#[derive(Clone, Copy, PartialEq, Eq, Structural)]
pub enum AId {
    Amplitude,
    BaselineShift,
    Class,
    ClipPath,
    ClipRule,
    ClipPathUnits,
    Color,
    ColorInterpolationFilters,
    Cx,
    Cy,
    D,
    Direction,
    Display,
    Dx,
    Dy,
    EnableBackground,
    Exponent,
    Fill,
    FillOpacity,
    FillRule,
    Filter,
    FilterUnits,
    FloodColor,
    FloodOpacity,
    FontFamily,
    FontSize,
    FontStretch,
    FontStyle,
    FontVariant,
    FontWeight,
    Fx,
    Fy,
    GradientTransform,
    GradientUnits,
    Height,
    Href,
    Id,
    ImageRendering,
    In,
    In2,
    Intercept,
    K1,
    K2,
    K3,
    K4,
    LetterSpacing,
    MarkerEnd,
    MarkerMid,
    MarkerStart,
    MarkerHeight,
    MarkerUnits,
    MarkerWidth,
    Mask,
    MaskContentUnits,
    MaskUnits,
    Mode,
    Offset,
    Opacity,
    Operator,
    Orient,
    Overflow,
    PatternContentUnits,
    PatternTransform,
    PatternUnits,
    Points,
    PreserveAspectRatio,
    PrimitiveUnits,
    R,
    RefX,
    RefY,
    RequiredExtensions,
    RequiredFeatures,
    Result,
    Rotate,
    Rx,
    Ry,
    ShapeRendering,
    Slope,
    Space,
    SpreadMethod,
    StartOffset,
    StdDeviation,
    StopColor,
    StopOpacity,
    Stroke,
    StrokeDasharray,
    StrokeDashoffset,
    StrokeLinecap,
    StrokeLinejoin,
    StrokeMiterlimit,
    StrokeOpacity,
    StrokeWidth,
    Style,
    SystemLanguage,
    TableValues,
    TextAnchor,
    TextDecoration,
    TextRendering,
    Transform,
    Type,
    Values,
    ViewBox,
    Visibility,
    Width,
    WordSpacing,
    WritingMode,
    X,
    X1,
    X2,
    Y,
    Y1,
    Y2,
}

/// The number of attribute names.
pub const ATTRIBUTES_LEN: usize = 112;

/// The hash key of the attribute table.
pub const ATTRIBUTES_KEY: u64 = 732231254413039614;

impl AId {
    /// The SVG name.
    pub open spec fn name(self) -> Seq<char> {
        match self {
            AId::Amplitude => "amplitude"@,
            AId::BaselineShift => "baseline-shift"@,
            AId::Class => "class"@,
            AId::ClipPath => "clip-path"@,
            AId::ClipRule => "clip-rule"@,
            AId::ClipPathUnits => "clipPathUnits"@,
            AId::Color => "color"@,
            AId::ColorInterpolationFilters => "color-interpolation-filters"@,
            AId::Cx => "cx"@,
            AId::Cy => "cy"@,
            AId::D => "d"@,
            AId::Direction => "direction"@,
            AId::Display => "display"@,
            AId::Dx => "dx"@,
            AId::Dy => "dy"@,
            AId::EnableBackground => "enable-background"@,
            AId::Exponent => "exponent"@,
            AId::Fill => "fill"@,
            AId::FillOpacity => "fill-opacity"@,
            AId::FillRule => "fill-rule"@,
            AId::Filter => "filter"@,
            AId::FilterUnits => "filterUnits"@,
            AId::FloodColor => "flood-color"@,
            AId::FloodOpacity => "flood-opacity"@,
            AId::FontFamily => "font-family"@,
            AId::FontSize => "font-size"@,
            AId::FontStretch => "font-stretch"@,
            AId::FontStyle => "font-style"@,
            AId::FontVariant => "font-variant"@,
            AId::FontWeight => "font-weight"@,
            AId::Fx => "fx"@,
            AId::Fy => "fy"@,
            AId::GradientTransform => "gradientTransform"@,
            AId::GradientUnits => "gradientUnits"@,
            AId::Height => "height"@,
            AId::Href => "href"@,
            AId::Id => "id"@,
            AId::ImageRendering => "image-rendering"@,
            AId::In => "in"@,
            AId::In2 => "in2"@,
            AId::Intercept => "intercept"@,
            AId::K1 => "k1"@,
            AId::K2 => "k2"@,
            AId::K3 => "k3"@,
            AId::K4 => "k4"@,
            AId::LetterSpacing => "letter-spacing"@,
            AId::MarkerEnd => "marker-end"@,
            AId::MarkerMid => "marker-mid"@,
            AId::MarkerStart => "marker-start"@,
            AId::MarkerHeight => "markerHeight"@,
            AId::MarkerUnits => "markerUnits"@,
            AId::MarkerWidth => "markerWidth"@,
            AId::Mask => "mask"@,
            AId::MaskContentUnits => "maskContentUnits"@,
            AId::MaskUnits => "maskUnits"@,
            AId::Mode => "mode"@,
            AId::Offset => "offset"@,
            AId::Opacity => "opacity"@,
            AId::Operator => "operator"@,
            AId::Orient => "orient"@,
            AId::Overflow => "overflow"@,
            AId::PatternContentUnits => "patternContentUnits"@,
            AId::PatternTransform => "patternTransform"@,
            AId::PatternUnits => "patternUnits"@,
            AId::Points => "points"@,
            AId::PreserveAspectRatio => "preserveAspectRatio"@,
            AId::PrimitiveUnits => "primitiveUnits"@,
            AId::R => "r"@,
            AId::RefX => "refX"@,
            AId::RefY => "refY"@,
            AId::RequiredExtensions => "requiredExtensions"@,
            AId::RequiredFeatures => "requiredFeatures"@,
            AId::Result => "result"@,
            AId::Rotate => "rotate"@,
            AId::Rx => "rx"@,
            AId::Ry => "ry"@,
            AId::ShapeRendering => "shape-rendering"@,
            AId::Slope => "slope"@,
            AId::Space => "space"@,
            AId::SpreadMethod => "spreadMethod"@,
            AId::StartOffset => "startOffset"@,
            AId::StdDeviation => "stdDeviation"@,
            AId::StopColor => "stop-color"@,
            AId::StopOpacity => "stop-opacity"@,
            AId::Stroke => "stroke"@,
            AId::StrokeDasharray => "stroke-dasharray"@,
            AId::StrokeDashoffset => "stroke-dashoffset"@,
            AId::StrokeLinecap => "stroke-linecap"@,
            AId::StrokeLinejoin => "stroke-linejoin"@,
            AId::StrokeMiterlimit => "stroke-miterlimit"@,
            AId::StrokeOpacity => "stroke-opacity"@,
            AId::StrokeWidth => "stroke-width"@,
            AId::Style => "style"@,
            AId::SystemLanguage => "systemLanguage"@,
            AId::TableValues => "tableValues"@,
            AId::TextAnchor => "text-anchor"@,
            AId::TextDecoration => "text-decoration"@,
            AId::TextRendering => "text-rendering"@,
            AId::Transform => "transform"@,
            AId::Type => "type"@,
            AId::Values => "values"@,
            AId::ViewBox => "viewBox"@,
            AId::Visibility => "visibility"@,
            AId::Width => "width"@,
            AId::WordSpacing => "word-spacing"@,
            AId::WritingMode => "writing-mode"@,
            AId::X => "x"@,
            AId::X1 => "x1"@,
            AId::X2 => "x2"@,
            AId::Y => "y"@,
            AId::Y1 => "y1"@,
            AId::Y2 => "y2"@,
        }
    }

    /// The place of this value in the attribute table.
    pub open spec fn position(self) -> int {
        match self {
            AId::Amplitude => 72,
            AId::BaselineShift => 67,
            AId::Class => 62,
            AId::ClipPath => 49,
            AId::ClipRule => 89,
            AId::ClipPathUnits => 80,
            AId::Color => 105,
            AId::ColorInterpolationFilters => 14,
            AId::Cx => 55,
            AId::Cy => 21,
            AId::D => 94,
            AId::Direction => 61,
            AId::Display => 13,
            AId::Dx => 87,
            AId::Dy => 66,
            AId::EnableBackground => 32,
            AId::Exponent => 111,
            AId::Fill => 39,
            AId::FillOpacity => 51,
            AId::FillRule => 106,
            AId::Filter => 19,
            AId::FilterUnits => 69,
            AId::FloodColor => 64,
            AId::FloodOpacity => 47,
            AId::FontFamily => 17,
            AId::FontSize => 79,
            AId::FontStretch => 91,
            AId::FontStyle => 4,
            AId::FontVariant => 107,
            AId::FontWeight => 18,
            AId::Fx => 93,
            AId::Fy => 23,
            AId::GradientTransform => 95,
            AId::GradientUnits => 110,
            AId::Height => 26,
            AId::Href => 20,
            AId::Id => 33,
            AId::ImageRendering => 103,
            AId::In => 45,
            AId::In2 => 31,
            AId::Intercept => 42,
            AId::K1 => 96,
            AId::K2 => 104,
            AId::K3 => 5,
            AId::K4 => 8,
            AId::LetterSpacing => 40,
            AId::MarkerEnd => 48,
            AId::MarkerMid => 50,
            AId::MarkerStart => 6,
            AId::MarkerHeight => 70,
            AId::MarkerUnits => 109,
            AId::MarkerWidth => 57,
            AId::Mask => 29,
            AId::MaskContentUnits => 11,
            AId::MaskUnits => 63,
            AId::Mode => 102,
            AId::Offset => 75,
            AId::Opacity => 86,
            AId::Operator => 30,
            AId::Orient => 28,
            AId::Overflow => 7,
            AId::PatternContentUnits => 68,
            AId::PatternTransform => 101,
            AId::PatternUnits => 92,
            AId::Points => 2,
            AId::PreserveAspectRatio => 58,
            AId::PrimitiveUnits => 54,
            AId::R => 59,
            AId::RefX => 46,
            AId::RefY => 99,
            AId::RequiredExtensions => 25,
            AId::RequiredFeatures => 1,
            AId::Result => 27,
            AId::Rotate => 10,
            AId::Rx => 82,
            AId::Ry => 41,
            AId::ShapeRendering => 78,
            AId::Slope => 73,
            AId::Space => 85,
            AId::SpreadMethod => 52,
            AId::StartOffset => 71,
            AId::StdDeviation => 98,
            AId::StopColor => 44,
            AId::StopOpacity => 16,
            AId::Stroke => 22,
            AId::StrokeDasharray => 24,
            AId::StrokeDashoffset => 0,
            AId::StrokeLinecap => 90,
            AId::StrokeLinejoin => 34,
            AId::StrokeMiterlimit => 74,
            AId::StrokeOpacity => 88,
            AId::StrokeWidth => 100,
            AId::Style => 77,
            AId::SystemLanguage => 12,
            AId::TableValues => 83,
            AId::TextAnchor => 97,
            AId::TextDecoration => 35,
            AId::TextRendering => 108,
            AId::Transform => 43,
            AId::Type => 76,
            AId::Values => 38,
            AId::ViewBox => 37,
            AId::Visibility => 3,
            AId::Width => 15,
            AId::WordSpacing => 53,
            AId::WritingMode => 60,
            AId::X => 84,
            AId::X1 => 56,
            AId::X2 => 36,
            AId::Y => 9,
            AId::Y1 => 65,
            AId::Y2 => 81,
        }
    }
}

impl TableValue for AId {
    fn same_as(&self, other: &Self) -> (r: bool) {
        *self == *other
    }
}

/// The value at place `i` of the attribute table.
pub open spec fn attribute_at(i: int) -> AId {
    if i == 0 {
        AId::StrokeDashoffset
    } else if i == 1 {
        AId::RequiredFeatures
    } else if i == 2 {
        AId::Points
    } else if i == 3 {
        AId::Visibility
    } else if i == 4 {
        AId::FontStyle
    } else if i == 5 {
        AId::K3
    } else if i == 6 {
        AId::MarkerStart
    } else if i == 7 {
        AId::Overflow
    } else if i == 8 {
        AId::K4
    } else if i == 9 {
        AId::Y
    } else if i == 10 {
        AId::Rotate
    } else if i == 11 {
        AId::MaskContentUnits
    } else if i == 12 {
        AId::SystemLanguage
    } else if i == 13 {
        AId::Display
    } else if i == 14 {
        AId::ColorInterpolationFilters
    } else if i == 15 {
        AId::Width
    } else if i == 16 {
        AId::StopOpacity
    } else if i == 17 {
        AId::FontFamily
    } else if i == 18 {
        AId::FontWeight
    } else if i == 19 {
        AId::Filter
    } else if i == 20 {
        AId::Href
    } else if i == 21 {
        AId::Cy
    } else if i == 22 {
        AId::Stroke
    } else if i == 23 {
        AId::Fy
    } else if i == 24 {
        AId::StrokeDasharray
    } else if i == 25 {
        AId::RequiredExtensions
    } else if i == 26 {
        AId::Height
    } else if i == 27 {
        AId::Result
    } else if i == 28 {
        AId::Orient
    } else if i == 29 {
        AId::Mask
    } else if i == 30 {
        AId::Operator
    } else if i == 31 {
        AId::In2
    } else if i == 32 {
        AId::EnableBackground
    } else if i == 33 {
        AId::Id
    } else if i == 34 {
        AId::StrokeLinejoin
    } else if i == 35 {
        AId::TextDecoration
    } else if i == 36 {
        AId::X2
    } else if i == 37 {
        AId::ViewBox
    } else if i == 38 {
        AId::Values
    } else if i == 39 {
        AId::Fill
    } else if i == 40 {
        AId::LetterSpacing
    } else if i == 41 {
        AId::Ry
    } else if i == 42 {
        AId::Intercept
    } else if i == 43 {
        AId::Transform
    } else if i == 44 {
        AId::StopColor
    } else if i == 45 {
        AId::In
    } else if i == 46 {
        AId::RefX
    } else if i == 47 {
        AId::FloodOpacity
    } else if i == 48 {
        AId::MarkerEnd
    } else if i == 49 {
        AId::ClipPath
    } else if i == 50 {
        AId::MarkerMid
    } else if i == 51 {
        AId::FillOpacity
    } else if i == 52 {
        AId::SpreadMethod
    } else if i == 53 {
        AId::WordSpacing
    } else if i == 54 {
        AId::PrimitiveUnits
    } else if i == 55 {
        AId::Cx
    } else if i == 56 {
        AId::X1
    } else if i == 57 {
        AId::MarkerWidth
    } else if i == 58 {
        AId::PreserveAspectRatio
    } else if i == 59 {
        AId::R
    } else if i == 60 {
        AId::WritingMode
    } else if i == 61 {
        AId::Direction
    } else if i == 62 {
        AId::Class
    } else if i == 63 {
        AId::MaskUnits
    } else if i == 64 {
        AId::FloodColor
    } else if i == 65 {
        AId::Y1
    } else if i == 66 {
        AId::Dy
    } else if i == 67 {
        AId::BaselineShift
    } else if i == 68 {
        AId::PatternContentUnits
    } else if i == 69 {
        AId::FilterUnits
    } else if i == 70 {
        AId::MarkerHeight
    } else if i == 71 {
        AId::StartOffset
    } else if i == 72 {
        AId::Amplitude
    } else if i == 73 {
        AId::Slope
    } else if i == 74 {
        AId::StrokeMiterlimit
    } else if i == 75 {
        AId::Offset
    } else if i == 76 {
        AId::Type
    } else if i == 77 {
        AId::Style
    } else if i == 78 {
        AId::ShapeRendering
    } else if i == 79 {
        AId::FontSize
    } else if i == 80 {
        AId::ClipPathUnits
    } else if i == 81 {
        AId::Y2
    } else if i == 82 {
        AId::Rx
    } else if i == 83 {
        AId::TableValues
    } else if i == 84 {
        AId::X
    } else if i == 85 {
        AId::Space
    } else if i == 86 {
        AId::Opacity
    } else if i == 87 {
        AId::Dx
    } else if i == 88 {
        AId::StrokeOpacity
    } else if i == 89 {
        AId::ClipRule
    } else if i == 90 {
        AId::StrokeLinecap
    } else if i == 91 {
        AId::FontStretch
    } else if i == 92 {
        AId::PatternUnits
    } else if i == 93 {
        AId::Fx
    } else if i == 94 {
        AId::D
    } else if i == 95 {
        AId::GradientTransform
    } else if i == 96 {
        AId::K1
    } else if i == 97 {
        AId::TextAnchor
    } else if i == 98 {
        AId::StdDeviation
    } else if i == 99 {
        AId::RefY
    } else if i == 100 {
        AId::StrokeWidth
    } else if i == 101 {
        AId::PatternTransform
    } else if i == 102 {
        AId::Mode
    } else if i == 103 {
        AId::ImageRendering
    } else if i == 104 {
        AId::K2
    } else if i == 105 {
        AId::Color
    } else if i == 106 {
        AId::FillRule
    } else if i == 107 {
        AId::FontVariant
    } else if i == 108 {
        AId::TextRendering
    } else if i == 109 {
        AId::MarkerUnits
    } else if i == 110 {
        AId::GradientUnits
    } else {
        AId::Exponent
    }
}

/// Entry `i` of the attribute table.
fn attribute_entry(i: usize) -> (r: (&'static str, AId))
    requires
        i < ATTRIBUTES_LEN,
    ensures
        r.0@ == attribute_at(i as int).name(),
        r.1 == attribute_at(i as int),
{
    if i == 0 {
        ("stroke-dashoffset", AId::StrokeDashoffset)
    } else if i == 1 {
        ("requiredFeatures", AId::RequiredFeatures)
    } else if i == 2 {
        ("points", AId::Points)
    } else if i == 3 {
        ("visibility", AId::Visibility)
    } else if i == 4 {
        ("font-style", AId::FontStyle)
    } else if i == 5 {
        ("k3", AId::K3)
    } else if i == 6 {
        ("marker-start", AId::MarkerStart)
    } else if i == 7 {
        ("overflow", AId::Overflow)
    } else if i == 8 {
        ("k4", AId::K4)
    } else if i == 9 {
        ("y", AId::Y)
    } else if i == 10 {
        ("rotate", AId::Rotate)
    } else if i == 11 {
        ("maskContentUnits", AId::MaskContentUnits)
    } else if i == 12 {
        ("systemLanguage", AId::SystemLanguage)
    } else if i == 13 {
        ("display", AId::Display)
    } else if i == 14 {
        ("color-interpolation-filters", AId::ColorInterpolationFilters)
    } else if i == 15 {
        ("width", AId::Width)
    } else if i == 16 {
        ("stop-opacity", AId::StopOpacity)
    } else if i == 17 {
        ("font-family", AId::FontFamily)
    } else if i == 18 {
        ("font-weight", AId::FontWeight)
    } else if i == 19 {
        ("filter", AId::Filter)
    } else if i == 20 {
        ("href", AId::Href)
    } else if i == 21 {
        ("cy", AId::Cy)
    } else if i == 22 {
        ("stroke", AId::Stroke)
    } else if i == 23 {
        ("fy", AId::Fy)
    } else if i == 24 {
        ("stroke-dasharray", AId::StrokeDasharray)
    } else if i == 25 {
        ("requiredExtensions", AId::RequiredExtensions)
    } else if i == 26 {
        ("height", AId::Height)
    } else if i == 27 {
        ("result", AId::Result)
    } else if i == 28 {
        ("orient", AId::Orient)
    } else if i == 29 {
        ("mask", AId::Mask)
    } else if i == 30 {
        ("operator", AId::Operator)
    } else if i == 31 {
        ("in2", AId::In2)
    } else if i == 32 {
        ("enable-background", AId::EnableBackground)
    } else if i == 33 {
        ("id", AId::Id)
    } else if i == 34 {
        ("stroke-linejoin", AId::StrokeLinejoin)
    } else if i == 35 {
        ("text-decoration", AId::TextDecoration)
    } else if i == 36 {
        ("x2", AId::X2)
    } else if i == 37 {
        ("viewBox", AId::ViewBox)
    } else if i == 38 {
        ("values", AId::Values)
    } else if i == 39 {
        ("fill", AId::Fill)
    } else if i == 40 {
        ("letter-spacing", AId::LetterSpacing)
    } else if i == 41 {
        ("ry", AId::Ry)
    } else if i == 42 {
        ("intercept", AId::Intercept)
    } else if i == 43 {
        ("transform", AId::Transform)
    } else if i == 44 {
        ("stop-color", AId::StopColor)
    } else if i == 45 {
        ("in", AId::In)
    } else if i == 46 {
        ("refX", AId::RefX)
    } else if i == 47 {
        ("flood-opacity", AId::FloodOpacity)
    } else if i == 48 {
        ("marker-end", AId::MarkerEnd)
    } else if i == 49 {
        ("clip-path", AId::ClipPath)
    } else if i == 50 {
        ("marker-mid", AId::MarkerMid)
    } else if i == 51 {
        ("fill-opacity", AId::FillOpacity)
    } else if i == 52 {
        ("spreadMethod", AId::SpreadMethod)
    } else if i == 53 {
        ("word-spacing", AId::WordSpacing)
    } else if i == 54 {
        ("primitiveUnits", AId::PrimitiveUnits)
    } else if i == 55 {
        ("cx", AId::Cx)
    } else if i == 56 {
        ("x1", AId::X1)
    } else if i == 57 {
        ("markerWidth", AId::MarkerWidth)
    } else if i == 58 {
        ("preserveAspectRatio", AId::PreserveAspectRatio)
    } else if i == 59 {
        ("r", AId::R)
    } else if i == 60 {
        ("writing-mode", AId::WritingMode)
    } else if i == 61 {
        ("direction", AId::Direction)
    } else if i == 62 {
        ("class", AId::Class)
    } else if i == 63 {
        ("maskUnits", AId::MaskUnits)
    } else if i == 64 {
        ("flood-color", AId::FloodColor)
    } else if i == 65 {
        ("y1", AId::Y1)
    } else if i == 66 {
        ("dy", AId::Dy)
    } else if i == 67 {
        ("baseline-shift", AId::BaselineShift)
    } else if i == 68 {
        ("patternContentUnits", AId::PatternContentUnits)
    } else if i == 69 {
        ("filterUnits", AId::FilterUnits)
    } else if i == 70 {
        ("markerHeight", AId::MarkerHeight)
    } else if i == 71 {
        ("startOffset", AId::StartOffset)
    } else if i == 72 {
        ("amplitude", AId::Amplitude)
    } else if i == 73 {
        ("slope", AId::Slope)
    } else if i == 74 {
        ("stroke-miterlimit", AId::StrokeMiterlimit)
    } else if i == 75 {
        ("offset", AId::Offset)
    } else if i == 76 {
        ("type", AId::Type)
    } else if i == 77 {
        ("style", AId::Style)
    } else if i == 78 {
        ("shape-rendering", AId::ShapeRendering)
    } else if i == 79 {
        ("font-size", AId::FontSize)
    } else if i == 80 {
        ("clipPathUnits", AId::ClipPathUnits)
    } else if i == 81 {
        ("y2", AId::Y2)
    } else if i == 82 {
        ("rx", AId::Rx)
    } else if i == 83 {
        ("tableValues", AId::TableValues)
    } else if i == 84 {
        ("x", AId::X)
    } else if i == 85 {
        ("space", AId::Space)
    } else if i == 86 {
        ("opacity", AId::Opacity)
    } else if i == 87 {
        ("dx", AId::Dx)
    } else if i == 88 {
        ("stroke-opacity", AId::StrokeOpacity)
    } else if i == 89 {
        ("clip-rule", AId::ClipRule)
    } else if i == 90 {
        ("stroke-linecap", AId::StrokeLinecap)
    } else if i == 91 {
        ("font-stretch", AId::FontStretch)
    } else if i == 92 {
        ("patternUnits", AId::PatternUnits)
    } else if i == 93 {
        ("fx", AId::Fx)
    } else if i == 94 {
        ("d", AId::D)
    } else if i == 95 {
        ("gradientTransform", AId::GradientTransform)
    } else if i == 96 {
        ("k1", AId::K1)
    } else if i == 97 {
        ("text-anchor", AId::TextAnchor)
    } else if i == 98 {
        ("stdDeviation", AId::StdDeviation)
    } else if i == 99 {
        ("refY", AId::RefY)
    } else if i == 100 {
        ("stroke-width", AId::StrokeWidth)
    } else if i == 101 {
        ("patternTransform", AId::PatternTransform)
    } else if i == 102 {
        ("mode", AId::Mode)
    } else if i == 103 {
        ("image-rendering", AId::ImageRendering)
    } else if i == 104 {
        ("k2", AId::K2)
    } else if i == 105 {
        ("color", AId::Color)
    } else if i == 106 {
        ("fill-rule", AId::FillRule)
    } else if i == 107 {
        ("font-variant", AId::FontVariant)
    } else if i == 108 {
        ("text-rendering", AId::TextRendering)
    } else if i == 109 {
        ("markerUnits", AId::MarkerUnits)
    } else if i == 110 {
        ("gradientUnits", AId::GradientUnits)
    } else {
        ("exponent", AId::Exponent)
    }
}

/// The displacement pairs of the attribute table.
pub open spec fn attribute_disps() -> Seq<(u32, u32)> {
    seq![(0u32, 96u32), (4u32, 30u32), (4u32, 8u32), (1u32, 43u32), (1u32, 108u32), (1u32, 0u32), (1u32, 79u32), (6u32, 61u32), (1u32, 31u32), (49u32, 0u32), (0u32, 3u32), (1u32, 3u32), (0u32, 7u32), (0u32, 0u32), (0u32, 64u32), (1u32, 41u32), (1u32, 34u32), (0u32, 51u32), (2u32, 82u32), (0u32, 90u32), (0u32, 6u32), (0u32, 72u32), (42u32, 36u32)]
}

fn attribute_disps_vec() -> (v: Vec<(u32, u32)>)
    ensures
        v@ == attribute_disps(),
{
    let mut v: Vec<(u32, u32)> = Vec::new();
    v.push((0, 96));
    v.push((4, 30));
    v.push((4, 8));
    v.push((1, 43));
    v.push((1, 108));
    v.push((1, 0));
    v.push((1, 79));
    v.push((6, 61));
    v.push((1, 31));
    v.push((49, 0));
    v.push((0, 3));
    v.push((1, 3));
    v.push((0, 7));
    v.push((0, 0));
    v.push((0, 64));
    v.push((1, 41));
    v.push((1, 34));
    v.push((0, 51));
    v.push((2, 82));
    v.push((0, 90));
    v.push((0, 6));
    v.push((0, 72));
    v.push((42, 36));
    assert(v@ =~= attribute_disps());
    v
}

proof fn lemma_attribute_disps_fit()
    ensures
        disps_fit(attribute_disps()),
{
    assert forall|i: int| 0 <= i < attribute_disps().len() implies 0x1f_ffff * (
    #[trigger] attribute_disps()[i]).0 + attribute_disps()[i].1 + 0x1f_ffff <= u32::MAX by {
        if i == 0 {
        } else if i == 1 {
        } else if i == 2 {
        } else if i == 3 {
        } else if i == 4 {
        } else if i == 5 {
        } else if i == 6 {
        } else if i == 7 {
        } else if i == 8 {
        } else if i == 9 {
        } else if i == 10 {
        } else if i == 11 {
        } else if i == 12 {
        } else if i == 13 {
        } else if i == 14 {
        } else if i == 15 {
        } else if i == 16 {
        } else if i == 17 {
        } else if i == 18 {
        } else if i == 19 {
        } else if i == 20 {
        } else if i == 21 {
        } else if i == 22 {
        }
    }
}

proof fn lemma_attribute_at_position(v: AId)
    ensures
        0 <= v.position() < ATTRIBUTES_LEN,
        attribute_at(v.position()) == v,
{
    match v {
        AId::Amplitude => {},
        AId::BaselineShift => {},
        AId::Class => {},
        AId::ClipPath => {},
        AId::ClipRule => {},
        AId::ClipPathUnits => {},
        AId::Color => {},
        AId::ColorInterpolationFilters => {},
        AId::Cx => {},
        AId::Cy => {},
        AId::D => {},
        AId::Direction => {},
        AId::Display => {},
        AId::Dx => {},
        AId::Dy => {},
        AId::EnableBackground => {},
        AId::Exponent => {},
        AId::Fill => {},
        AId::FillOpacity => {},
        AId::FillRule => {},
        AId::Filter => {},
        AId::FilterUnits => {},
        AId::FloodColor => {},
        AId::FloodOpacity => {},
        AId::FontFamily => {},
        AId::FontSize => {},
        AId::FontStretch => {},
        AId::FontStyle => {},
        AId::FontVariant => {},
        AId::FontWeight => {},
        AId::Fx => {},
        AId::Fy => {},
        AId::GradientTransform => {},
        AId::GradientUnits => {},
        AId::Height => {},
        AId::Href => {},
        AId::Id => {},
        AId::ImageRendering => {},
        AId::In => {},
        AId::In2 => {},
        AId::Intercept => {},
        AId::K1 => {},
        AId::K2 => {},
        AId::K3 => {},
        AId::K4 => {},
        AId::LetterSpacing => {},
        AId::MarkerEnd => {},
        AId::MarkerMid => {},
        AId::MarkerStart => {},
        AId::MarkerHeight => {},
        AId::MarkerUnits => {},
        AId::MarkerWidth => {},
        AId::Mask => {},
        AId::MaskContentUnits => {},
        AId::MaskUnits => {},
        AId::Mode => {},
        AId::Offset => {},
        AId::Opacity => {},
        AId::Operator => {},
        AId::Orient => {},
        AId::Overflow => {},
        AId::PatternContentUnits => {},
        AId::PatternTransform => {},
        AId::PatternUnits => {},
        AId::Points => {},
        AId::PreserveAspectRatio => {},
        AId::PrimitiveUnits => {},
        AId::R => {},
        AId::RefX => {},
        AId::RefY => {},
        AId::RequiredExtensions => {},
        AId::RequiredFeatures => {},
        AId::Result => {},
        AId::Rotate => {},
        AId::Rx => {},
        AId::Ry => {},
        AId::ShapeRendering => {},
        AId::Slope => {},
        AId::Space => {},
        AId::SpreadMethod => {},
        AId::StartOffset => {},
        AId::StdDeviation => {},
        AId::StopColor => {},
        AId::StopOpacity => {},
        AId::Stroke => {},
        AId::StrokeDasharray => {},
        AId::StrokeDashoffset => {},
        AId::StrokeLinecap => {},
        AId::StrokeLinejoin => {},
        AId::StrokeMiterlimit => {},
        AId::StrokeOpacity => {},
        AId::StrokeWidth => {},
        AId::Style => {},
        AId::SystemLanguage => {},
        AId::TableValues => {},
        AId::TextAnchor => {},
        AId::TextDecoration => {},
        AId::TextRendering => {},
        AId::Transform => {},
        AId::Type => {},
        AId::Values => {},
        AId::ViewBox => {},
        AId::Visibility => {},
        AId::Width => {},
        AId::WordSpacing => {},
        AId::WritingMode => {},
        AId::X => {},
        AId::X1 => {},
        AId::X2 => {},
        AId::Y => {},
        AId::Y1 => {},
        AId::Y2 => {},
    }
}

/// Builds the attribute table.
pub fn attributes() -> (m: NameMap<AId>)
    ensures
        m.wf(),
        m.key == ATTRIBUTES_KEY,
        m.disps@ == attribute_disps(),
        m.entries@.len() == ATTRIBUTES_LEN,
        forall|i: int|
            0 <= i < ATTRIBUTES_LEN ==> m.name_at(i) == (#[trigger] attribute_at(i)).name() && m.value_at(i)
                == attribute_at(i),
{
    let mut entries: Vec<(&'static str, AId)> = Vec::new();
    let mut i: usize = 0;
    while i < ATTRIBUTES_LEN
        invariant
            i <= ATTRIBUTES_LEN,
            entries@.len() == i,
            forall|j: int|
                0 <= j < i ==> entries@[j].0@ == (#[trigger] attribute_at(j)).name() && entries@[j].1
                    == attribute_at(j),
        decreases ATTRIBUTES_LEN - i,
    {
        entries.push(attribute_entry(i));
        i += 1;
    }
    let disps = attribute_disps_vec();
    proof {
        lemma_attribute_disps_fit();
    }
    NameMap { key: ATTRIBUTES_KEY, disps, entries }
}

/// The only table place that a lookup of `text` probes.
pub open spec fn attribute_index(text: Seq<char>) -> int {
    spec_get_index(sip13_hash(text, ATTRIBUTES_KEY), attribute_disps(), ATTRIBUTES_LEN as nat)
}

/// What a lookup of `text` in the attribute table gives: the value at the
/// probed place when its name is `text`, else nothing.
pub open spec fn attribute_lookup(text: Seq<char>) -> Option<AId> {
    let i = attribute_index(text);
    if attribute_at(i).name() == text {
        Some(attribute_at(i))
    } else {
        None
    }
}

/// The hash parameters of the attribute table send every name to its own place.
pub open spec fn attributes_perfect() -> bool {
    forall|i: int| 0 <= i < ATTRIBUTES_LEN ==> #[trigger] attribute_index(attribute_at(i).name()) == i
}

/// Checks that the attribute table's hash parameters are perfect: every name
/// is found at its own place, so that each value's name parses back to it.
pub fn check_attributes_perfect() -> (r: bool)
    ensures
        r == attributes_perfect(),
{
    let m = attributes();
    let r = m.check_perfect();
    proof {
        assert forall|i: int| 0 <= i < ATTRIBUTES_LEN implies #[trigger] m.index_of(m.name_at(i)) == attribute_index(
            attribute_at(i).name(),
        ) by {
            assert(m.name_at(i) == attribute_at(i).name());
        }
        if r {
            assert forall|i: int| 0 <= i < ATTRIBUTES_LEN implies #[trigger] attribute_index(attribute_at(i).name()) == i by {
                assert(m.index_of(m.name_at(i)) == i);
            }
        } else {
            let i = choose|i: int| 0 <= i < m.entries@.len() && #[trigger] m.index_of(m.name_at(i)) != i;
            assert(attribute_index(attribute_at(i).name()) != i);
        }
    }
    r
}

impl AId {
    /// Parses an attribute name.
    pub fn from_str(text: &str) -> (r: Option<AId>)
        ensures
            r == attribute_lookup(text@),
    {
        let m = attributes();
        match m.get(text) {
            Some(v) => Some(*v),
            None => None,
        }
    }

    /// The attribute name.
    pub fn to_str(&self) -> (r: &'static str)
        ensures
            r@ == self.name(),
    {
        let m = attributes();
        proof {
            lemma_attribute_at_position(*self);
            assert(m.value_at(self.position()) == *self);
        }
        let r = m.key(self);
        proof {
            let i = choose|i: int|
                0 <= i < m.entries@.len() && m.value_at(i) == *self && r@ == m.name_at(i) && forall|
                    k: int,
                | 0 <= k < i ==> m.value_at(k) != *self;
            assert(attribute_at(i) == *self);
        }
        r
    }
}

/// A name that the attribute lookup accepts is the name of the value it gives.
pub proof fn lemma_attribute_lookup_sound(text: Seq<char>)
    ensures
        attribute_lookup(text) matches Some(v) ==> v.name() == text,
{
}

/// When the table's hash parameters are perfect for its names, every
/// value is found by its own name.
pub proof fn lemma_attribute_lookup_complete(v: AId)
    requires
        attributes_perfect(),
    ensures
        attribute_lookup(v.name()) == Some(v),
{
    lemma_attribute_at_position(v);
    assert(attribute_index(attribute_at(v.position()).name()) == v.position());
}

/// When the table's hash parameters are perfect for its names, no two
/// values share a name.
pub proof fn lemma_attribute_names_distinct(a: AId, b: AId)
    requires
        attributes_perfect(),
        a.name() == b.name(),
    ensures
        a == b,
{
    lemma_attribute_lookup_complete(a);
    lemma_attribute_lookup_complete(b);
}

} // verus!
