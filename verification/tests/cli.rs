use resvg::cli::{
    attrs_indent_or_default, default_family, dpi_or_default, font_size_or_default,
    indent_or_default, languages_or_default, parse_dpi, parse_font_size, parse_image_rendering,
    parse_indent, parse_languages, parse_shape_rendering, parse_text_rendering, resolve_family,
    resolve_io, take_or, FamilyOption, ImageRendering, InputFrom, OutputTo, ShapeRendering,
    TextRendering, XmlIndent,
};
use resvg::strings::parse_u32;

#[test]
fn parse_u32_agrees_with_std() {
    let cases = [
        "", "0", "7", "+7", "-7", "+", "-", "00012", "4294967295", "4294967296", "99999999999",
        " 1", "1 ", "1a", "a1", "+-1", "++1", "١٢", "12\u{3000}", "3.0",
    ];
    for s in cases.iter() {
        assert_eq!(parse_u32(s), s.parse::<u32>().ok(), "input {:?}", s);
    }
}

#[test]
fn dpi_values() {
    assert_eq!(parse_dpi("96"), Ok(96));
    assert_eq!(parse_dpi("10"), Ok(10));
    assert_eq!(parse_dpi("4000"), Ok(4000));
    assert_eq!(parse_dpi("+300"), Ok(300));
    assert_eq!(parse_dpi("9"), Err("DPI out of bounds".to_string()));
    assert_eq!(parse_dpi("4001"), Err("DPI out of bounds".to_string()));
    assert_eq!(parse_dpi("0"), Err("DPI out of bounds".to_string()));
    assert_eq!(parse_dpi("abc"), Err("invalid number".to_string()));
    assert_eq!(parse_dpi(""), Err("invalid number".to_string()));
    assert_eq!(parse_dpi("-96"), Err("invalid number".to_string()));
    assert_eq!(parse_dpi("5000000000"), Err("invalid number".to_string()));
}

#[test]
fn font_size_values() {
    assert_eq!(parse_font_size("12"), Ok(12));
    assert_eq!(parse_font_size("1"), Ok(1));
    assert_eq!(parse_font_size("192"), Ok(192));
    assert_eq!(parse_font_size("0"), Err("font size out of bounds".to_string()));
    assert_eq!(parse_font_size("193"), Err("font size out of bounds".to_string()));
    assert_eq!(parse_font_size("12px"), Err("invalid number".to_string()));
}

fn std_languages(s: &str) -> Vec<String> {
    s.split(',').map(|l| l.trim().to_string()).collect()
}

#[test]
fn languages_values() {
    assert_eq!(parse_languages("en"), Ok(vec!["en".to_string()]));
    assert_eq!(
        parse_languages("en-US, ru-RU"),
        Ok(vec!["en-US".to_string(), "ru-RU".to_string()])
    );
    assert_eq!(parse_languages("en, ru"), Ok(vec!["en".to_string(), "ru".to_string()]));
    assert_eq!(parse_languages(""), Ok(vec!["".to_string()]));
    assert_eq!(parse_languages(",,"), Ok(vec!["".to_string(), "".to_string(), "".to_string()]));
    let cases = [
        " en ,\tru\n", "\u{3000}ja\u{a0}", "a,\u{2009}b\u{85},\u{1680}", "  ", "x,,y",
        "\u{200b}z", "de-DE , fr",
    ];
    for s in cases.iter() {
        assert_eq!(parse_languages(s), Ok(std_languages(s)), "input {:?}", s);
    }
}

#[test]
fn languages_count_commas() {
    let s = "a,b,,c";
    let langs = parse_languages(s).unwrap();
    assert_eq!(langs.len(), s.matches(',').count() + 1);
}

#[test]
fn indent_values() {
    assert!(parse_indent("none") == Ok(XmlIndent::Off));
    assert!(parse_indent("0") == Ok(XmlIndent::Spaces(0)));
    assert!(parse_indent("1") == Ok(XmlIndent::Spaces(1)));
    assert!(parse_indent("2") == Ok(XmlIndent::Spaces(2)));
    assert!(parse_indent("3") == Ok(XmlIndent::Spaces(3)));
    assert!(parse_indent("4") == Ok(XmlIndent::Spaces(4)));
    assert!(parse_indent("tabs") == Ok(XmlIndent::Tabs));
    for bad in ["5", "Tabs", "", " none", "spaces"].iter() {
        match parse_indent(bad) {
            Err(e) => assert_eq!(e, "invalid INDENT value"),
            Ok(_) => panic!("accepted {:?}", bad),
        }
    }
}

#[test]
fn io_resolution() {
    match resolve_io("in.svg", "out.svg") {
        (InputFrom::File(i), OutputTo::File(o)) => {
            assert_eq!(i, "in.svg");
            assert_eq!(o, "out.svg");
        }
        _ => panic!(),
    }
    assert!(matches!(resolve_io("-", "-c"), (InputFrom::Stdin, OutputTo::Stdout)));
    assert!(matches!(resolve_io("in.svg", "-c"), (InputFrom::File(_), OutputTo::Stdout)));
    assert!(matches!(resolve_io("-", "out.svg"), (InputFrom::Stdin, OutputTo::File(_))));
}

#[test]
fn c_before_the_input_reads_the_file_and_prints() {
    match resolve_io("-c", "in.svg") {
        (InputFrom::File(i), OutputTo::Stdout) => assert_eq!(i, "in.svg"),
        _ => panic!(),
    }
    assert!(matches!(resolve_io("-c", "-"), (InputFrom::Stdin, OutputTo::Stdout)));
}

#[test]
fn family_fallbacks() {
    assert_eq!(take_or(None, "Arial"), "Arial");
    assert_eq!(take_or(Some("Noto Sans".to_string()), "Arial"), "Noto Sans");
}

#[test]
fn documented_defaults() {
    assert_eq!(dpi_or_default(None), 96);
    assert_eq!(dpi_or_default(Some(300)), 300);
    assert_eq!(font_size_or_default(None), 12);
    assert_eq!(font_size_or_default(Some(20)), 20);
    assert_eq!(languages_or_default(None), vec!["en".to_string()]);
    assert_eq!(languages_or_default(Some(vec!["ru".to_string()])), vec!["ru".to_string()]);
    assert!(indent_or_default(None) == XmlIndent::Spaces(4));
    assert!(indent_or_default(Some(XmlIndent::Tabs)) == XmlIndent::Tabs);
    assert!(attrs_indent_or_default(None) == XmlIndent::Off);
    assert!(attrs_indent_or_default(Some(XmlIndent::Spaces(2))) == XmlIndent::Spaces(2));
    assert!(ShapeRendering::default() == ShapeRendering::GeometricPrecision);
    assert!(TextRendering::default() == TextRendering::OptimizeLegibility);
    assert!(ImageRendering::default() == ImageRendering::OptimizeQuality);
}

#[test]
fn default_families() {
    assert_eq!(default_family(FamilyOption::Default), "Times New Roman");
    assert_eq!(default_family(FamilyOption::Serif), "Times New Roman");
    assert_eq!(default_family(FamilyOption::SansSerif), "Arial");
    assert_eq!(default_family(FamilyOption::Cursive), "Comic Sans MS");
    assert_eq!(default_family(FamilyOption::Fantasy), "Impact");
    assert_eq!(default_family(FamilyOption::Monospace), "Courier New");
    assert_eq!(resolve_family(FamilyOption::Monospace, None), "Courier New");
    assert_eq!(resolve_family(FamilyOption::Monospace, Some("Mono".to_string())), "Mono");
    // Giving the default is the same as giving nothing.
    assert_eq!(
        resolve_family(FamilyOption::Cursive, None),
        resolve_family(FamilyOption::Cursive, Some("Comic Sans MS".to_string()))
    );
}

#[test]
fn rendering_hints() {
    assert!(parse_shape_rendering("optimizeSpeed") == Ok(ShapeRendering::OptimizeSpeed));
    assert!(parse_shape_rendering("crispEdges") == Ok(ShapeRendering::CrispEdges));
    assert!(parse_shape_rendering("geometricPrecision") == Ok(ShapeRendering::GeometricPrecision));
    assert!(parse_shape_rendering("crisp") == Err("invalid value".to_string()));
    assert!(parse_text_rendering("optimizeSpeed") == Ok(TextRendering::OptimizeSpeed));
    assert!(parse_text_rendering("optimizeLegibility") == Ok(TextRendering::OptimizeLegibility));
    assert!(parse_text_rendering("geometricPrecision") == Ok(TextRendering::GeometricPrecision));
    assert!(parse_text_rendering("crispEdges").is_err());
    assert!(parse_image_rendering("optimizeQuality") == Ok(ImageRendering::OptimizeQuality));
    assert!(parse_image_rendering("optimizeSpeed") == Ok(ImageRendering::OptimizeSpeed));
    assert!(parse_image_rendering("OptimizeSpeed").is_err());
}
