use resvg::filter::{
    convert_merge, convert_morphology_operator, resolve_input, FeMerge, FilterInput,
    MorphologyOperator,
};

#[test]
fn morphology_operators() {
    assert!(convert_morphology_operator(Some("dilate")) == MorphologyOperator::Dilate);
    assert!(convert_morphology_operator(Some("erode")) == MorphologyOperator::Erode);
    assert!(convert_morphology_operator(None) == MorphologyOperator::Erode);
    assert!(convert_morphology_operator(Some("Dilate")) == MorphologyOperator::Erode);
    assert!(convert_morphology_operator(Some("")) == MorphologyOperator::Erode);
}

#[test]
fn merge_holds_inputs_in_order() {
    let m = FeMerge {
        inputs: vec![FilterInput::SourceGraphic, FilterInput::Reference("blur".to_string())],
    };
    assert_eq!(m.inputs.len(), 2);
    assert!(matches!(m.inputs[0], FilterInput::SourceGraphic));
    match &m.inputs[1] {
        FilterInput::Reference(r) => assert_eq!(r, "blur"),
        _ => panic!(),
    }
}

fn names(v: &[&str]) -> Vec<String> {
    v.iter().map(|s| s.to_string()).collect()
}

fn reference(i: &FilterInput) -> Option<&str> {
    match i {
        FilterInput::Reference(r) => Some(r.as_str()),
        _ => None,
    }
}

#[test]
fn inputs_resolve_keywords_references_and_fallbacks() {
    let prev = names(&["blur", "offset"]);
    assert!(matches!(resolve_input(Some("SourceAlpha"), &prev), FilterInput::SourceAlpha));
    assert!(matches!(resolve_input(Some("BackgroundImage"), &prev), FilterInput::BackgroundImage));
    assert!(matches!(resolve_input(Some("StrokePaint"), &[]), FilterInput::StrokePaint));
    assert_eq!(reference(&resolve_input(Some("blur"), &prev)), Some("blur"));
    // An unknown name falls back to the previous result.
    assert_eq!(reference(&resolve_input(Some("nothing"), &prev)), Some("offset"));
    // No `in` also takes the previous result.
    assert_eq!(reference(&resolve_input(None, &prev)), Some("offset"));
    // The first primitive falls back to the source graphic.
    assert!(matches!(resolve_input(None, &[]), FilterInput::SourceGraphic));
    assert!(matches!(resolve_input(Some("blur"), &[]), FilterInput::SourceGraphic));
    // Keywords are case-sensitive.
    assert!(matches!(resolve_input(Some("sourcegraphic"), &[]), FilterInput::SourceGraphic));
    assert_eq!(reference(&resolve_input(Some("sourcegraphic"), &prev)), Some("offset"));
}

#[test]
fn merge_resolves_each_node() {
    let prev = names(&["a", "b"]);
    let m = convert_merge(&[Some("a"), None, Some("FillPaint"), Some("zzz")], &prev);
    assert_eq!(m.inputs.len(), 4);
    assert_eq!(reference(&m.inputs[0]), Some("a"));
    assert_eq!(reference(&m.inputs[1]), Some("b"));
    assert!(matches!(m.inputs[2], FilterInput::FillPaint));
    assert_eq!(reference(&m.inputs[3]), Some("b"));
    assert!(convert_merge(&[], &prev).inputs.is_empty());
}
