use resvg::path::{get_subpath, split_subpaths, PathSegmentKind};
use PathSegmentKind::{ClosePath as Z, CurveTo as C, LineTo as L, MoveTo as M};

#[test]
fn subpath_ends() {
    let segs = [M, L, L, Z, M, L, C];
    assert_eq!(get_subpath(0, &segs), 4);
    assert_eq!(get_subpath(4, &segs), 7);
    assert_eq!(get_subpath(7, &segs), 7);
    assert_eq!(get_subpath(1, &segs), 4);
    let segs = [M, L, M, L];
    assert_eq!(get_subpath(0, &segs), 2);
    assert_eq!(get_subpath(2, &segs), 4);
}

#[test]
fn subpaths_cover_the_path() {
    assert_eq!(split_subpaths(&[]), vec![]);
    assert_eq!(split_subpaths(&[M, L, L, Z, M, L, C]), vec![(0, 4), (4, 7)]);
    assert_eq!(split_subpaths(&[M, Z, Z]), vec![(0, 2), (2, 3)]);
    assert_eq!(split_subpaths(&[L, M]), vec![(0, 1), (1, 2)]);
    assert_eq!(split_subpaths(&[M, M, M]), vec![(0, 1), (1, 2), (2, 3)]);
    let segs = [M, L, Z, L, C, M, Z, M];
    let r = split_subpaths(&segs);
    assert_eq!(r.first().unwrap().0, 0);
    assert_eq!(r.last().unwrap().1, segs.len());
    for w in r.windows(2) {
        assert_eq!(w[0].1, w[1].0);
    }
}
