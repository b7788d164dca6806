//! Pixel byte order of rendered surfaces.

use vstd::prelude::*;

verus! {

/// `img` with the first and third byte of every whole 4-byte pixel
/// exchanged; bytes after the last whole pixel stay.
pub open spec fn swap_red_blue_spec(img: Seq<u8>) -> Seq<u8> {
    Seq::new(
        img.len(),
        |i: int|
            if i < img.len() - img.len() % 4 && i % 4 == 0 {
                img[i + 2]
            } else if i < img.len() - img.len() % 4 && i % 4 == 2 {
                img[i - 2]
            } else {
                img[i]
            },
    )
}

/// Turns BGRA pixels into RGBA ones (or back) in place.
pub fn swap_red_blue(img: &mut Vec<u8>)
    ensures
        final(img)@ == swap_red_blue_spec(old(img)@),
{
    let ghost orig = img@;
    let len = img.len();
    let n = len / 4;
    let mut p: usize = 0;
    while p < n
        invariant
            n == len / 4,
            len == orig.len(),
            img@.len() == len,
            p <= n,
            forall|i: int|
                0 <= i < img@.len() ==> #[trigger] img@[i] == if i < 4 * p && i % 4 == 0 {
                    orig[i + 2]
                } else if i < 4 * p && i % 4 == 2 {
                    orig[i - 2]
                } else {
                    orig[i]
                },
        decreases n - p,
    {
        assert(4 * p + 3 < img@.len()) by (nonlinear_arith)
            requires
                p < n,
                n == len / 4,
                img@.len() == len,
        ;
        let r = img[4 * p];
        let b = img[4 * p + 2];
        img.set(4 * p, b);
        img.set(4 * p + 2, r);
        p += 1;
    }
    assert(img@ =~= swap_red_blue_spec(orig));
}

/// Exchanging the red and blue bytes twice gives the pixels back.
pub proof fn lemma_swap_red_blue_twice(img: Seq<u8>)
    ensures
        swap_red_blue_spec(swap_red_blue_spec(img)) == img,
{
    assert(swap_red_blue_spec(swap_red_blue_spec(img)) =~= img);
}

/// Within every whole pixel the first and third bytes trade places and
/// the second and fourth stay; the bytes after the last whole pixel, and
/// the length, stay.
pub proof fn lemma_swap_red_blue_pixels(img: Seq<u8>, p: int)
    requires
        0 <= p,
        4 * p + 3 < img.len(),
    ensures
        swap_red_blue_spec(img).len() == img.len(),
        swap_red_blue_spec(img)[4 * p] == img[4 * p + 2],
        swap_red_blue_spec(img)[4 * p + 1] == img[4 * p + 1],
        swap_red_blue_spec(img)[4 * p + 2] == img[4 * p],
        swap_red_blue_spec(img)[4 * p + 3] == img[4 * p + 3],
        forall|i: int|
            img.len() - img.len() % 4 <= i < img.len() ==> #[trigger] swap_red_blue_spec(img)[i]
                == img[i],
{
    assert(4 * p + 3 < img.len() - img.len() % 4) by {
        assert(img.len() - img.len() % 4 == 4 * (img.len() / 4));
        assert(p < img.len() / 4) by (nonlinear_arith)
            requires
                0 <= p,
                4 * p + 3 < img.len(),
        ;
    }
    assert((4 * p) % 4 == 0 && (4 * p + 1) % 4 == 1 && (4 * p + 2) % 4 == 2 && (4 * p + 3) % 4 == 3);
}

} // verus!
