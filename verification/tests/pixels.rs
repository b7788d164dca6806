use resvg::pixels::swap_red_blue;

#[test]
fn swaps_whole_pixels_only() {
    let mut img = vec![1, 2, 3, 4, 5, 6, 7, 8, 9, 10];
    swap_red_blue(&mut img);
    assert_eq!(img, vec![3, 2, 1, 4, 7, 6, 5, 8, 9, 10]);
}

#[test]
fn swapping_twice_restores() {
    let orig: Vec<u8> = (0..37u8).collect();
    let mut img = orig.clone();
    swap_red_blue(&mut img);
    assert_ne!(img, orig);
    swap_red_blue(&mut img);
    assert_eq!(img, orig);
}
