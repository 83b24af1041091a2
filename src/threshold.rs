//! Binarization by colour distance.
use vstd::prelude::*;
use crate::image::RgbaImage;

verus! {

/// A perceptual binarization: a pixel turns white when its colour distance
/// (CIELAB ΔE) from `(r, g, b)` is at least `threshold`, black otherwise.
#[derive(Clone, Copy, Debug, PartialEq, Eq, Hash, Structural)]
pub struct ThresholdFilter {
    pub r: u8,
    pub g: u8,
    pub b: u8,
    pub threshold: u8,
}

impl ThresholdFilter {
    /// Binarizes the image. `is_far` decides, for a colour, whether its
    /// distance from this filter's colour is at least this filter's
    /// threshold.
    pub fn apply<F: Fn(u8, u8, u8) -> bool>(&self, image: RgbaImage, is_far: &F) -> (r: RgbaImage)
        requires
            image.wf(),
            forall|r: u8, g: u8, b: u8| is_far.requires((r, g, b)),
        ensures
            r.wf(),
            r.width == image.width,
            r.height == image.height,
            is_thresholded(r.pixels@, image.pixels@, *is_far),
    {
        threshold_color_distance(image, is_far)
    }
}

/// Pixel `p` of `out` is opaque white or opaque black, white exactly when
/// `is_far` answers `true` for the colour of pixel `p` of `src`.
pub open spec fn pixel_thresholded<F: Fn(u8, u8, u8) -> bool>(
    out: Seq<u8>,
    src: Seq<u8>,
    is_far: F,
    p: int,
) -> bool {
    &&& out[4 * p] == 0u8 || out[4 * p] == 255u8
    &&& out[4 * p + 1] == out[4 * p]
    &&& out[4 * p + 2] == out[4 * p]
    &&& out[4 * p + 3] == 255u8
    &&& is_far.ensures((src[4 * p], src[4 * p + 1], src[4 * p + 2]), out[4 * p] == 255u8)
}

/// `out` is `src` (RGBA bytes) with every pixel binarized by `is_far`.
pub open spec fn is_thresholded<F: Fn(u8, u8, u8) -> bool>(out: Seq<u8>, src: Seq<u8>, is_far: F) -> bool {
    &&& out.len() == src.len()
    &&& forall|p: int|
        #![trigger out[4 * p]]
        0 <= p < src.len() / 4 ==> pixel_thresholded(out, src, is_far, p)
}

/// Binarizes RGBA bytes: each pixel becomes `255, 255, 255, 255` when
/// `is_far` holds of its colour and `0, 0, 0, 255` otherwise.
pub fn threshold_color_distance_rgba<F: Fn(u8, u8, u8) -> bool>(vector: &Vec<u8>, is_far: &F) -> (r: Vec<u8>)
    requires
        vector@.len() % 4 == 0,
        forall|r: u8, g: u8, b: u8| is_far.requires((r, g, b)),
    ensures
        is_thresholded(r@, vector@, *is_far),
{
    let len: usize = vector.len();
    let n: usize = len / 4;
    assert(len == 4 * n);
    let mut out: Vec<u8> = Vec::with_capacity(len);
    let mut p: usize = 0;
    while p < n
        invariant
            vector@.len() == len,
            len == 4 * n,
            p <= n,
            out@.len() == 4 * p,
            forall|r: u8, g: u8, b: u8| is_far.requires((r, g, b)),
            forall|q: int|
                #![trigger out@[4 * q]]
                0 <= q < p ==> pixel_thresholded(out@, vector@, *is_far, q),
        decreases n - p,
    {
        let i: usize = 4 * p;
        let far = is_far(vector[i], vector[i + 1], vector[i + 2]);
        let v: u8 = if far { 255u8 } else { 0u8 };
        let ghost before = out@;
        out.push(v);
        out.push(v);
        out.push(v);
        out.push(255u8);
        assert(out@ =~= before + seq![v, v, v, 255u8]);
        assert forall|q: int| #![trigger out@[4 * q]] 0 <= q <= p implies pixel_thresholded(
            out@,
            vector@,
            *is_far,
            q,
        ) by {
            if q < p {
                assert(pixel_thresholded(before, vector@, *is_far, q));
            }
        }
        p = p + 1;
    }
    out
}

/// Binarizes an RGBA image pixel by pixel with `is_far`.
pub fn threshold_color_distance<F: Fn(u8, u8, u8) -> bool>(image: RgbaImage, is_far: &F) -> (r: RgbaImage)
    requires
        image.wf(),
        forall|r: u8, g: u8, b: u8| is_far.requires((r, g, b)),
    ensures
        r.wf(),
        r.width == image.width,
        r.height == image.height,
        is_thresholded(r.pixels@, image.pixels@, *is_far),
{
    assert(image.pixels@.len() == (image.width * image.height) * 4);
    let pixels = threshold_color_distance_rgba(&image.pixels, is_far);
    RgbaImage { pixels, width: image.width, height: image.height }
}

/// The filter is idempotent: binarizing the binarized bytes again with the
/// same test changes nothing, provided the test keeps the two output colours
/// where they are (white stays white where some pixel turned white, black
/// stays black where some pixel turned black).
pub proof fn lemma_threshold_idempotent<F: Fn(u8, u8, u8) -> bool>(
    src: Seq<u8>,
    once: Seq<u8>,
    twice: Seq<u8>,
    is_far: F,
)
    requires
        src.len() % 4 == 0,
        is_thresholded(once, src, is_far),
        is_thresholded(twice, once, is_far),
        forall|p: int|
            #![trigger once[4 * p]]
            0 <= p < src.len() / 4 ==> (once[4 * p] == 255u8 ==> forall|x: bool|
                is_far.ensures((255u8, 255u8, 255u8), x) ==> x) && (once[4 * p] == 0u8
                ==> forall|x: bool| is_far.ensures((0u8, 0u8, 0u8), x) ==> !x),
    ensures
        twice == once,
{
    assert forall|j: int| 0 <= j < once.len() implies twice[j] == once[j] by {
        let p = j / 4;
        assert(j == 4 * p + j % 4);
        assert(pixel_thresholded(once, src, is_far, p));
        assert(pixel_thresholded(twice, once, is_far, p));
    }
    assert(twice =~= once);
}

} // verus!
