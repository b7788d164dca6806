//! Decisions of the `usvg` command line: the option values it accepts and
//! where it reads and writes the SVG.

use vstd::prelude::*;
use vstd::string::StrSliceExecFns;

use crate::strings::{
    chars_of, find_char_from, lemma_first_index_of_is, lemma_first_index_of_none, parse_u32,
    parse_u32_spec, split_fields, str_eq, trim, trim_string, count_char, lemma_split_fields_len,
};

verus! {

/// An XML indentation.
#[derive(Clone, Copy, PartialEq, Eq, Structural)]
pub enum XmlIndent {
    /// No indentation and no line breaks.
    Off,
    /// This many spaces per level.
    Spaces(u8),
    /// One tab per level.
    Tabs,
}

/// The value of `--dpi`: a number in `10..=4000`.
pub fn parse_dpi(s: &str) -> (r: Result<u32, String>)
    ensures
        match parse_u32_spec(s@) {
            None => r matches Err(e) && e@ == "invalid number"@,
            Some(n) => if 10 <= n <= 4000 {
                r == Ok::<u32, String>(n)
            } else {
                r matches Err(e) && e@ == "DPI out of bounds"@
            },
        },
{
    let n = match parse_u32(s) {
        Some(n) => n,
        None => return Err("invalid number".to_owned()),
    };
    if n >= 10 && n <= 4000 {
        Ok(n)
    } else {
        Err("DPI out of bounds".to_owned())
    }
}

/// The value of `--font-size`: a number in `1..=192`.
pub fn parse_font_size(s: &str) -> (r: Result<u32, String>)
    ensures
        match parse_u32_spec(s@) {
            None => r matches Err(e) && e@ == "invalid number"@,
            Some(n) => if 0 < n <= 192 {
                r == Ok::<u32, String>(n)
            } else {
                r matches Err(e) && e@ == "font size out of bounds"@
            },
        },
{
    let n = match parse_u32(s) {
        Some(n) => n,
        None => return Err("invalid number".to_owned()),
    };
    if n > 0 && n <= 192 {
        Ok(n)
    } else {
        Err("font size out of bounds".to_owned())
    }
}

/// The languages that a `--languages` value lists: its comma-separated
/// fields, each trimmed.
pub open spec fn languages_of(s: Seq<char>) -> Seq<Seq<char>> {
    split_fields(s, ',').map_values(|f: Seq<char>| trim(f))
}

/// The value of `--languages`: a comma-separated list. The list is never
/// empty, so this never fails.
pub fn parse_languages(s: &str) -> (r: Result<Vec<String>, String>)
    ensures
        r matches Ok(langs) && langs@.len() == languages_of(s@).len() && forall|i: int|
            0 <= i < langs@.len() ==> (#[trigger] langs@[i])@ == languages_of(s@)[i],
{
    let v = chars_of(s);
    let ghost fields = split_fields(s@, ',');
    let mut langs: Vec<String> = Vec::new();
    let mut start: usize = 0;
    proof {
        assert(s@.skip(0) =~= s@);
        assert(fields.skip(0) =~= fields);
        assert(fields.len() >= 1);
    }
    loop
        invariant
            v@ == s@,
            fields == split_fields(s@, ','),
            start <= v.len(),
            langs@.len() < fields.len(),
            split_fields(s@.skip(start as int), ',') =~= fields.skip(langs@.len() as int),
            forall|i: int| 0 <= i < langs@.len() ==> (#[trigger] langs@[i])@ == trim(fields[i]),
        decreases v.len() - start,
    {
        let ghost rest = s@.skip(start as int);
        let ghost k: int = langs@.len() as int;
        match find_char_from(&v, ',', start) {
            Some(j) => {
                proof {
                    lemma_first_index_of_is(rest, ',', j - start);
                    assert(rest.take(j - start) =~= s@.subrange(start as int, j as int));
                    assert(rest.skip(j - start + 1) =~= s@.skip(j + 1));
                    assert(split_fields(rest, ',') == seq![rest.take(j - start)] + split_fields(
                        rest.skip(j - start + 1),
                        ',',
                    ));
                    assert(fields.skip(k)[0] == fields[k]);
                    assert(fields.skip(k + 1) =~= fields.skip(k).skip(1));
                    assert(split_fields(s@.skip(j + 1), ',').len() >= 1) by {
                        reveal_with_fuel(split_fields, 2);
                    }
                }
                let field = s.substring_char(start, j);
                langs.push(trim_string(field));
                start = j + 1;
            },
            None => {
                proof {
                    lemma_first_index_of_none(rest, ',');
                    assert(split_fields(rest, ',') == seq![rest]);
                    assert(fields.skip(k)[0] == fields[k]);
                    assert(fields.skip(k).len() == 1);
                }
                let field = s.substring_char(start, v.len());
                proof {
                    assert(field@ =~= rest);
                }
                langs.push(trim_string(field));
                assert(langs@.len() == fields.len());
                return Ok(langs);
            },
        }
    }
}

/// A `--languages` value lists one language more than it has commas.
pub proof fn lemma_languages_count(s: Seq<char>)
    ensures
        languages_of(s).len() == count_char(s, ',') + 1,
{
    lemma_split_fields_len(s, ',');
}

/// The indentation that an `--indent` value names.
pub open spec fn indent_of(s: Seq<char>) -> Option<XmlIndent> {
    if s == "none"@ {
        Some(XmlIndent::Off)
    } else if s == "0"@ {
        Some(XmlIndent::Spaces(0))
    } else if s == "1"@ {
        Some(XmlIndent::Spaces(1))
    } else if s == "2"@ {
        Some(XmlIndent::Spaces(2))
    } else if s == "3"@ {
        Some(XmlIndent::Spaces(3))
    } else if s == "4"@ {
        Some(XmlIndent::Spaces(4))
    } else if s == "tabs"@ {
        Some(XmlIndent::Tabs)
    } else {
        None
    }
}

/// The value of `--indent` and `--attrs-indent`.
pub fn parse_indent(s: &str) -> (r: Result<XmlIndent, String>)
    ensures
        match indent_of(s@) {
            Some(i) => r == Ok::<XmlIndent, String>(i),
            None => r matches Err(e) && e@ == "invalid INDENT value"@,
        },
{
    if str_eq(s, "none") {
        Ok(XmlIndent::Off)
    } else if str_eq(s, "0") {
        Ok(XmlIndent::Spaces(0))
    } else if str_eq(s, "1") {
        Ok(XmlIndent::Spaces(1))
    } else if str_eq(s, "2") {
        Ok(XmlIndent::Spaces(2))
    } else if str_eq(s, "3") {
        Ok(XmlIndent::Spaces(3))
    } else if str_eq(s, "4") {
        Ok(XmlIndent::Spaces(4))
    } else if str_eq(s, "tabs") {
        Ok(XmlIndent::Tabs)
    } else {
        Err("invalid INDENT value".to_owned())
    }
}

/// Where the input SVG comes from.
pub enum InputFrom {
    Stdin,
    File(String),
}

/// Where the output SVG goes.
pub enum OutputTo {
    Stdout,
    File(String),
}

/// Decides where to read and write from the two free arguments, as the
/// usage text lists them: `<in-svg> <out-svg>` reads and writes files,
/// `-c <in-svg>` reads the file and writes the standard output, `-` as the
/// input reads the standard input, and `-c` as the output writes the
/// standard output.
pub fn resolve_io(input: &str, output: &str) -> (r: (InputFrom, OutputTo))
    ensures
        ({
        let (from, to) = r;
        if input@ == "-c"@ {
            (if output@ == "-"@ {
                from is Stdin
            } else {
                from matches InputFrom::File(f) && f@ == output@
            }) && to is Stdout
        } else {
            (if input@ == "-"@ {
                from is Stdin
            } else {
                from matches InputFrom::File(f) && f@ == input@
            }) && (if output@ == "-c"@ {
                to is Stdout
            } else {
                to matches OutputTo::File(f) && f@ == output@
            })
        }
        }),
{
    proof {
        reveal_strlit("-");
        reveal_strlit("-c");
        assert("-"@.len() != "-c"@.len());
    }
    if str_eq(input, "-c") {
        let from = if str_eq(output, "-") {
            InputFrom::Stdin
        } else {
            InputFrom::File(output.to_owned())
        };
        return (from, OutputTo::Stdout);
    }
    let svg_from = if str_eq(input, "-") {
        InputFrom::Stdin
    } else {
        InputFrom::File(input.to_owned())
    };
    let svg_to = if str_eq(output, "-c") {
        OutputTo::Stdout
    } else {
        OutputTo::File(output.to_owned())
    };
    (svg_from, svg_to)
}

/// The family that an option gives, or `fallback` when it gives none.
pub fn take_or(family: Option<String>, fallback: &str) -> (r: String)
    ensures
        match family {
            Some(f) => r@ == f@,
            None => r@ == fallback@,
        },
{
    match family {
        Some(f) => f,
        None => fallback.to_owned(),
    }
}

/// The value of `--dpi` when the option is not given.
pub fn dpi_or_default(dpi: Option<u32>) -> (r: u32)
    ensures
        r == match dpi {
            Some(n) => n,
            None => 96,
        },
{
    match dpi {
        Some(n) => n,
        None => 96,
    }
}

/// The value of `--font-size` when the option is not given.
pub fn font_size_or_default(size: Option<u32>) -> (r: u32)
    ensures
        r == match size {
            Some(n) => n,
            None => 12,
        },
{
    match size {
        Some(n) => n,
        None => 12,
    }
}

/// The languages when `--languages` is not given: English alone.
pub fn languages_or_default(languages: Option<Vec<String>>) -> (r: Vec<String>)
    ensures
        match languages {
            Some(l) => r@ == l@,
            None => r@.len() == 1 && r@[0]@ == "en"@,
        },
{
    match languages {
        Some(l) => l,
        None => {
            let mut v: Vec<String> = Vec::new();
            v.push("en".to_owned());
            v
        },
    }
}

/// The value of `--indent` when the option is not given: four spaces.
pub fn indent_or_default(indent: Option<XmlIndent>) -> (r: XmlIndent)
    ensures
        r == match indent {
            Some(i) => i,
            None => XmlIndent::Spaces(4),
        },
{
    match indent {
        Some(i) => i,
        None => XmlIndent::Spaces(4),
    }
}

/// The value of `--attrs-indent` when the option is not given: none.
pub fn attrs_indent_or_default(indent: Option<XmlIndent>) -> (r: XmlIndent)
    ensures
        r == match indent {
            Some(i) => i,
            None => XmlIndent::Off,
        },
{
    match indent {
        Some(i) => i,
        None => XmlIndent::Off,
    }
}

/// A font family option of the command line.
#[derive(Clone, Copy, PartialEq, Eq, Structural)]
pub enum FamilyOption {
    /// `--font-family`: the family of text without `font-family`.
    Default,
    /// `--serif-family`.
    Serif,
    /// `--sans-serif-family`.
    SansSerif,
    /// `--cursive-family`.
    Cursive,
    /// `--fantasy-family`.
    Fantasy,
    /// `--monospace-family`.
    Monospace,
}

/// The documented default of each family option.
pub open spec fn default_family_of(option: FamilyOption) -> Seq<char> {
    match option {
        FamilyOption::Default => "Times New Roman"@,
        FamilyOption::Serif => "Times New Roman"@,
        FamilyOption::SansSerif => "Arial"@,
        FamilyOption::Cursive => "Comic Sans MS"@,
        FamilyOption::Fantasy => "Impact"@,
        FamilyOption::Monospace => "Courier New"@,
    }
}

/// The default family of a family option.
pub fn default_family(option: FamilyOption) -> (r: &'static str)
    ensures
        r@ == default_family_of(option),
{
    match option {
        FamilyOption::Default => "Times New Roman",
        FamilyOption::Serif => "Times New Roman",
        FamilyOption::SansSerif => "Arial",
        FamilyOption::Cursive => "Comic Sans MS",
        FamilyOption::Fantasy => "Impact",
        FamilyOption::Monospace => "Courier New",
    }
}

/// The family that a family option sets, from the family given if any:
/// that family, or the option's documented default.
pub open spec fn family_of(option: FamilyOption, given: Option<Seq<char>>) -> Seq<char> {
    match given {
        Some(f) => f,
        None => default_family_of(option),
    }
}

/// The family that a family option sets.
pub fn resolve_family(option: FamilyOption, family: Option<String>) -> (r: String)
    ensures
        r@ == family_of(
            option,
            match family {
                Some(f) => Some(f@),
                None => None,
            },
        ),
{
    take_or(family, default_family(option))
}

/// Leaving a family option out is the same as giving it its documented
/// default family.
pub proof fn lemma_missing_family_is_default(option: FamilyOption)
    ensures
        family_of(option, None) == family_of(option, Some(default_family_of(option))),
{
}

/// The default shape rendering method.
#[derive(Clone, Copy, PartialEq, Eq, Structural)]
pub enum ShapeRendering {
    OptimizeSpeed,
    CrispEdges,
    GeometricPrecision,
}

/// The default text rendering method.
#[derive(Clone, Copy, PartialEq, Eq, Structural)]
pub enum TextRendering {
    OptimizeSpeed,
    OptimizeLegibility,
    GeometricPrecision,
}

/// The default image rendering method.
#[derive(Clone, Copy, PartialEq, Eq, Structural)]
pub enum ImageRendering {
    OptimizeQuality,
    OptimizeSpeed,
}

impl Default for ShapeRendering {
    fn default() -> (r: ShapeRendering)
        ensures
            r == ShapeRendering::GeometricPrecision,
    {
        ShapeRendering::GeometricPrecision
    }
}

impl Default for TextRendering {
    fn default() -> (r: TextRendering)
        ensures
            r == TextRendering::OptimizeLegibility,
    {
        TextRendering::OptimizeLegibility
    }
}

impl Default for ImageRendering {
    fn default() -> (r: ImageRendering)
        ensures
            r == ImageRendering::OptimizeQuality,
    {
        ImageRendering::OptimizeQuality
    }
}

/// The shape rendering method that a `--shape-rendering` value names.
pub open spec fn shape_rendering_of(s: Seq<char>) -> Option<ShapeRendering> {
    if s == "optimizeSpeed"@ {
        Some(ShapeRendering::OptimizeSpeed)
    } else if s == "crispEdges"@ {
        Some(ShapeRendering::CrispEdges)
    } else if s == "geometricPrecision"@ {
        Some(ShapeRendering::GeometricPrecision)
    } else {
        None
    }
}

/// The text rendering method that a `--text-rendering` value names.
pub open spec fn text_rendering_of(s: Seq<char>) -> Option<TextRendering> {
    if s == "optimizeSpeed"@ {
        Some(TextRendering::OptimizeSpeed)
    } else if s == "optimizeLegibility"@ {
        Some(TextRendering::OptimizeLegibility)
    } else if s == "geometricPrecision"@ {
        Some(TextRendering::GeometricPrecision)
    } else {
        None
    }
}

/// The image rendering method that an `--image-rendering` value names.
pub open spec fn image_rendering_of(s: Seq<char>) -> Option<ImageRendering> {
    if s == "optimizeQuality"@ {
        Some(ImageRendering::OptimizeQuality)
    } else if s == "optimizeSpeed"@ {
        Some(ImageRendering::OptimizeSpeed)
    } else {
        None
    }
}

/// The value of `--shape-rendering`; any other value is an error.
pub fn parse_shape_rendering(s: &str) -> (r: Result<ShapeRendering, String>)
    ensures
        match shape_rendering_of(s@) {
            Some(h) => r == Ok::<ShapeRendering, String>(h),
            None => r matches Err(e) && e@ == "invalid value"@,
        },
{
    if str_eq(s, "optimizeSpeed") {
        Ok(ShapeRendering::OptimizeSpeed)
    } else if str_eq(s, "crispEdges") {
        Ok(ShapeRendering::CrispEdges)
    } else if str_eq(s, "geometricPrecision") {
        Ok(ShapeRendering::GeometricPrecision)
    } else {
        Err("invalid value".to_owned())
    }
}

/// The value of `--text-rendering`; any other value is an error.
pub fn parse_text_rendering(s: &str) -> (r: Result<TextRendering, String>)
    ensures
        match text_rendering_of(s@) {
            Some(h) => r == Ok::<TextRendering, String>(h),
            None => r matches Err(e) && e@ == "invalid value"@,
        },
{
    if str_eq(s, "optimizeSpeed") {
        Ok(TextRendering::OptimizeSpeed)
    } else if str_eq(s, "optimizeLegibility") {
        Ok(TextRendering::OptimizeLegibility)
    } else if str_eq(s, "geometricPrecision") {
        Ok(TextRendering::GeometricPrecision)
    } else {
        Err("invalid value".to_owned())
    }
}

/// The value of `--image-rendering`; any other value is an error.
pub fn parse_image_rendering(s: &str) -> (r: Result<ImageRendering, String>)
    ensures
        match image_rendering_of(s@) {
            Some(h) => r == Ok::<ImageRendering, String>(h),
            None => r matches Err(e) && e@ == "invalid value"@,
        },
{
    if str_eq(s, "optimizeQuality") {
        Ok(ImageRendering::OptimizeQuality)
    } else if str_eq(s, "optimizeSpeed") {
        Ok(ImageRendering::OptimizeSpeed)
    } else {
        Err("invalid value".to_owned())
    }
}

} // verus!
