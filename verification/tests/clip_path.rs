use resvg::clip_path::{convert_clip_path, ClipPathElement, Units};

fn clip(id: &str, link: Option<usize>, has_children: bool) -> ClipPathElement {
    ClipPathElement {
        id: id.to_string(),
        is_clip_path: true,
        valid_transform: true,
        units: None,
        link,
        has_children,
    }
}

#[test]
fn plain_clip_paths() {
    let mut not_clip = clip("c", None, true);
    not_clip.is_clip_path = false;
    let mut bad_ts = clip("d", None, true);
    bad_ts.valid_transform = false;
    let elems = [clip("a", None, true), clip("b", None, false), not_clip, bad_ts];
    let mut cache = vec![false; elems.len()];
    let c = convert_clip_path(&elems, 0, &mut cache).unwrap();
    assert_eq!(c.id, "a");
    assert!(c.units == Units::UserSpaceOnUse);
    assert_eq!(c.clip_path, None);
    assert!(convert_clip_path(&elems, 1, &mut cache).is_none());
    assert!(convert_clip_path(&elems, 2, &mut cache).is_none());
    assert!(convert_clip_path(&elems, 3, &mut cache).is_none());
    assert_eq!(cache, vec![true, false, false, false]);
}

#[test]
fn units_default_to_user_space() {
    let mut e = clip("a", None, true);
    e.units = Some(Units::ObjectBoundingBox);
    let elems = [e, clip("b", None, true)];
    let mut cache = vec![false; 2];
    assert!(convert_clip_path(&elems, 0, &mut cache).unwrap().units == Units::ObjectBoundingBox);
    assert!(convert_clip_path(&elems, 1, &mut cache).unwrap().units == Units::UserSpaceOnUse);
}

#[test]
fn linked_clip_paths_must_be_valid() {
    // 0 is valid, 1 is empty; 2 links 0, 3 links 1, 4 links 2.
    let elems = [
        clip("a", None, true),
        clip("b", None, false),
        clip("c", Some(0), true),
        clip("d", Some(1), true),
        clip("e", Some(2), true),
    ];
    let mut cache = vec![false; elems.len()];
    let c = convert_clip_path(&elems, 4, &mut cache).unwrap();
    assert_eq!(c.id, "e");
    assert_eq!(c.clip_path, Some(2));
    assert_eq!(cache, vec![true, false, true, false, true]);
    assert!(convert_clip_path(&elems, 3, &mut cache).is_none());
    assert_eq!(cache, vec![true, false, true, false, true]);
}

#[test]
fn a_rejected_element_leaves_the_cache_alone() {
    let mut e = clip("b", Some(0), true);
    e.valid_transform = false;
    let elems = [clip("a", None, true), e];
    let mut cache = vec![false; 2];
    assert!(convert_clip_path(&elems, 1, &mut cache).is_none());
    assert_eq!(cache, vec![false, false]);
}

#[test]
fn a_cached_clip_path_is_reused() {
    let elems = [clip("a", None, true), clip("b", Some(0), true)];
    let mut cache = vec![false, true];
    let c = convert_clip_path(&elems, 1, &mut cache).unwrap();
    assert_eq!(c.id, "b");
    // The cache hit does not convert the link again.
    assert_eq!(cache, vec![false, true]);
}
