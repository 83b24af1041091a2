//! Image primitives: pixel-format conversion, crop, resampling, padding.
use vstd::prelude::*;
use crate::image::{ImageView, RgbImage, RgbaImage, lemma_u32_product_bound};

verus! {

/// Rows `y1 .. y1 + h` of an RGBA image `src_width` pixels wide, each cut to
/// the columns `x1 .. x1 + w`, one after the other.
pub open spec fn crop_rows(src: Seq<u8>, src_width: nat, x1: nat, y1: nat, w: nat, h: nat) -> Seq<u8>
    decreases h,
{
    if h == 0 {
        Seq::empty()
    } else {
        let y = y1 + h - 1;
        crop_rows(src, src_width, x1, y1, w, (h - 1) as nat) + src.subrange(
            (y * src_width + x1) * 4,
            (y * src_width + x1 + w) * 4,
        )
    }
}

/// The part of `img` with columns `x1 .. x2` and rows `y1 .. y2`.
pub open spec fn cropped(img: ImageView, x1: nat, y1: nat, x2: nat, y2: nat) -> ImageView {
    ImageView {
        width: (x2 - x1) as nat,
        height: (y2 - y1) as nat,
        pixels: crop_rows(img.pixels, img.width, x1, y1, (x2 - x1) as nat, (y2 - y1) as nat),
    }
}

/// The cut rows hold `w` pixels each.
proof fn lemma_crop_rows_len(src: Seq<u8>, src_width: nat, x1: nat, y1: nat, w: nat, h: nat)
    requires
        x1 + w <= src_width,
        (y1 + h) * src_width * 4 <= src.len(),
    ensures
        crop_rows(src, src_width, x1, y1, w, h).len() == w * h * 4,
    decreases h,
{
    if h > 0 {
        let y: nat = (y1 + h - 1) as nat;
        assert(y * src_width * 4 <= (y + 1) * src_width * 4) by (nonlinear_arith);
        assert((y * src_width + x1 + w) * 4 <= (y + 1) * src_width * 4) by (nonlinear_arith)
            requires
                x1 + w <= src_width,
        ;
        assert(y + 1 == y1 + h);
        lemma_crop_rows_len(src, src_width, x1, y1, w, (h - 1) as nat);
        let prev = crop_rows(src, src_width, x1, y1, w, (h - 1) as nat);
        let part = src.subrange(((y * src_width + x1) * 4) as int, ((y * src_width + x1 + w) * 4) as int);
        assert(part.len() == w * 4);
        assert(crop_rows(src, src_width, x1, y1, w, h) == prev + part);
        assert(w * (h - 1) * 4 + w * 4 == w * h * 4) by (nonlinear_arith)
            requires
                h > 0,
        ;
    } else {
        assert(w * h * 4 == 0) by (nonlinear_arith)
            requires
                h == 0,
        ;
    }
}

/// Byte `c` of the cut-out pixel `(x, y)` is byte `c` of pixel
/// `(x1 + x, y1 + y)` of the source.
proof fn lemma_crop_rows_byte(
    src: Seq<u8>,
    src_width: nat,
    x1: nat,
    y1: nat,
    w: nat,
    h: nat,
    x: nat,
    y: nat,
    c: nat,
)
    requires
        x1 + w <= src_width,
        (y1 + h) * src_width * 4 <= src.len(),
        x < w,
        y < h,
        c < 4,
    ensures
        crop_rows(src, src_width, x1, y1, w, h)[((y * w + x) * 4 + c) as int] == src[(((y1 + y)
            * src_width + x1 + x) * 4 + c) as int],
    decreases h,
{
    let k: nat = (h - 1) as nat;
    assert((y1 + k) * src_width * 4 <= (y1 + h) * src_width * 4) by (nonlinear_arith)
        requires
            k < h,
    ;
    lemma_crop_rows_len(src, src_width, x1, y1, w, k);
    let prev = crop_rows(src, src_width, x1, y1, w, k);
    if y < k {
        lemma_crop_rows_byte(src, src_width, x1, y1, w, k, x, y, c);
        assert((y * w + x) * 4 + c < k * w * 4) by (nonlinear_arith)
            requires
                y < k,
                x < w,
                c < 4,
        ;
        assert(w * k * 4 == k * w * 4) by (nonlinear_arith);
    } else {
        assert(y == k);
        assert((y * w + x) * 4 + c == w * k * 4 + (x * 4 + c)) by (nonlinear_arith)
            requires
                y == k,
        ;
        let yy: nat = y1 + k;
        assert((yy * src_width + x1 + w) * 4 <= (yy + 1) * src_width * 4) by (nonlinear_arith)
            requires
                x1 + w <= src_width,
        ;
        assert(yy + 1 == y1 + h);
        assert((yy * src_width + x1) * 4 + (x * 4 + c) == ((y1 + y) * src_width + x1 + x) * 4
            + c) by (nonlinear_arith)
            requires
                yy == y1 + y,
        ;
    }
}

/// Pixel `(x, y)` of a cut-out is pixel `(x1 + x, y1 + y)` of the source.
pub proof fn lemma_cropped_pixel(img: ImageView, x1: nat, y1: nat, x2: nat, y2: nat, x: nat, y: nat, c: nat)
    requires
        img.is_rgba(),
        x1 <= x2 <= img.width,
        y1 <= y2 <= img.height,
        x < x2 - x1,
        y < y2 - y1,
        c < 4,
    ensures
        cropped(img, x1, y1, x2, y2).byte_at(x as int, y as int, c as int) == img.byte_at(
            (x1 + x) as int,
            (y1 + y) as int,
            c as int,
        ),
{
    assert(y2 * img.width * 4 <= img.height * img.width * 4) by (nonlinear_arith)
        requires
            y2 <= img.height,
    ;
    assert(img.height * img.width * 4 == img.width * img.height * 4) by (nonlinear_arith);
    lemma_crop_rows_byte(
        img.pixels,
        img.width,
        x1,
        y1,
        (x2 - x1) as nat,
        (y2 - y1) as nat,
        x,
        y,
        c,
    );
}

/// Copies the pixels with columns `x1 .. x2` and rows `y1 .. y2` into a new
/// image.
pub fn crop(image: &RgbaImage, x1: u32, y1: u32, x2: u32, y2: u32) -> (r: RgbaImage)
    requires
        image.wf(),
        x1 <= x2 <= image.width,
        y1 <= y2 <= image.height,
    ensures
        r.wf(),
        r@ == cropped(image@, x1 as nat, y1 as nat, x2 as nat, y2 as nat),
{
    let w: u32 = x2 - x1;
    let h: u32 = y2 - y1;
    let src_width: usize = image.width as usize;
    let ghost src = image.pixels@;
    let len: usize = image.pixels.len();
    proof {
        assert(image.height * src_width * 4 == src_width * image.height * 4) by (nonlinear_arith);
    }
    let mut out: Vec<u8> = Vec::new();
    let mut row: u32 = 0;
    while row < h
        invariant
            image.wf(),
            src == image.pixels@,
            len == src.len(),
            src.len() == image.height * src_width * 4,
            src_width == image.width,
            w == x2 - x1,
            h == y2 - y1,
            x1 <= x2 <= image.width,
            y1 <= y2 <= image.height,
            row <= h,
            out@ == crop_rows(src, src_width as nat, x1 as nat, y1 as nat, w as nat, row as nat),
        decreases h - row,
    {
        let y: usize = (y1 + row) as usize;
        proof {
            assert((y * src_width + x1 + w) * 4 <= (y + 1) * src_width * 4) by (nonlinear_arith)
                requires
                    x1 + w <= src_width,
            ;
            assert((y + 1) * src_width * 4 <= image.height * src_width * 4) by (nonlinear_arith)
                requires
                    y + 1 <= image.height,
            ;
            assert(y * src_width <= (y + 1) * src_width) by (nonlinear_arith);
        }
        let start: usize = (y * src_width + x1 as usize) * 4;
        let end: usize = start + (w as usize) * 4;
        let ghost done = out@;
        let mut i: usize = start;
        while i < end
            invariant
                start <= i <= end,
                end <= src.len(),
                src == image.pixels@,
                out@ == done + src.subrange(start as int, i as int),
            decreases end - i,
        {
            out.push(image.pixels[i]);
            i = i + 1;
            assert(out@ =~= done + src.subrange(start as int, i as int));
        }
        row = row + 1;
    }
    proof {
        let yy: nat = (y1 + h) as nat;
        let hh: nat = image.height as nat;
        let ww: nat = src_width as nat;
        assert(yy * ww * 4 <= hh * ww * 4) by (nonlinear_arith)
            requires
                yy <= hh,
        ;
        assert(src.len() == hh * ww * 4);
        lemma_crop_rows_len(src, src_width as nat, x1 as nat, y1 as nat, w as nat, h as nat);
    }
    RgbaImage { pixels: out, width: w, height: h }
}

/// Packed RGB bytes expanded to RGBA: each 3-byte pixel gains an alpha of 255.
pub open spec fn rgba_of_rgb(rgb: Seq<u8>) -> Seq<u8> {
    Seq::new(
        (rgb.len() / 3 * 4) as nat,
        |j: int| if j % 4 == 3 { 255u8 } else { rgb[j / 4 * 3 + j % 4] },
    )
}

/// Packed RGBA bytes reduced to RGB: every fourth byte is dropped.
pub open spec fn rgb_of_rgba(rgba: Seq<u8>) -> Seq<u8> {
    Seq::new((rgba.len() / 4 * 3) as nat, |j: int| rgba[j / 3 * 4 + j % 3])
}

/// Expands packed 3-byte pixels to 4-byte pixels with an opaque alpha.
pub fn rgb24_to_rgba32(vec: Vec<u8>) -> (r: Vec<u8>)
    requires
        vec@.len() % 3 == 0,
        vec@.len() / 3 * 4 <= usize::MAX,
    ensures
        r@ == rgba_of_rgb(vec@),
{
    let len: usize = vec.len();
    let n: usize = len / 3;
    assert(vec@.len() == 3 * n);
    let mut out: Vec<u8> = Vec::with_capacity(n * 4);
    let mut p: usize = 0;
    while p < n
        invariant
            vec@.len() == len,
            len == 3 * n,
            p <= n,
            out@.len() == 4 * p,
            forall|q: int|
                #![trigger out@[4 * q]]
                0 <= q < p ==> out@[4 * q] == vec@[3 * q] && out@[4 * q + 1] == vec@[3 * q + 1]
                    && out@[4 * q + 2] == vec@[3 * q + 2] && out@[4 * q + 3] == 255u8,
        decreases n - p,
    {
        let i: usize = 3 * p;
        let ghost before = out@;
        out.push(vec[i]);
        out.push(vec[i + 1]);
        out.push(vec[i + 2]);
        out.push(255u8);
        assert(out@ =~= before + seq![vec@[3 * p], vec@[3 * p + 1], vec@[3 * p + 2], 255u8]);
        assert forall|q: int| #![trigger out@[4 * q]] 0 <= q <= p implies out@[4 * q] == vec@[3 * q]
            && out@[4 * q + 1] == vec@[3 * q + 1] && out@[4 * q + 2] == vec@[3 * q + 2]
            && out@[4 * q + 3] == 255u8 by {
            if q < p {
                assert(before[4 * q] == vec@[3 * q]);
            }
        }
        p = p + 1;
    }
    assert forall|j: int| 0 <= j < out@.len() implies out@[j] == rgba_of_rgb(vec@)[j] by {
        let q = j / 4;
        assert(out@[4 * q] == vec@[3 * q]);
        assert(j == 4 * q + j % 4);
    }
    assert(out@ =~= rgba_of_rgb(vec@));
    out
}

/// Drops the alpha byte of every 4-byte pixel.
pub fn rgba32_to_rgb24(vec: Vec<u8>) -> (r: Vec<u8>)
    requires
        vec@.len() % 4 == 0,
    ensures
        r@ == rgb_of_rgba(vec@),
{
    let len: usize = vec.len();
    let n: usize = len / 4;
    assert(vec@.len() == 4 * n);
    let mut out: Vec<u8> = Vec::with_capacity(n * 3);
    let mut p: usize = 0;
    while p < n
        invariant
            vec@.len() == len,
            len == 4 * n,
            p <= n,
            out@.len() == 3 * p,
            forall|q: int|
                #![trigger out@[3 * q]]
                0 <= q < p ==> out@[3 * q] == vec@[4 * q] && out@[3 * q + 1] == vec@[4 * q + 1]
                    && out@[3 * q + 2] == vec@[4 * q + 2],
        decreases n - p,
    {
        let i: usize = 4 * p;
        let ghost before = out@;
        out.push(vec[i]);
        out.push(vec[i + 1]);
        out.push(vec[i + 2]);
        assert(out@ =~= before + seq![vec@[4 * p], vec@[4 * p + 1], vec@[4 * p + 2]]);
        assert forall|q: int| #![trigger out@[3 * q]] 0 <= q <= p implies out@[3 * q] == vec@[4 * q]
            && out@[3 * q + 1] == vec@[4 * q + 1] && out@[3 * q + 2] == vec@[4 * q + 2] by {
            if q < p {
                assert(before[3 * q] == vec@[4 * q]);
            }
        }
        p = p + 1;
    }
    assert forall|j: int| 0 <= j < out@.len() implies out@[j] == rgb_of_rgba(vec@)[j] by {
        let q = j / 3;
        assert(out@[3 * q] == vec@[4 * q]);
        assert(j == 3 * q + j % 3);
    }
    assert(out@ =~= rgb_of_rgba(vec@));
    out
}

/// Expanding packed RGB to RGBA and dropping the alpha again gives back the
/// bytes one started from, for any length that is a multiple of three.
pub proof fn lemma_rgb_rgba_round_trip(rgb: Seq<u8>)
    requires
        rgb.len() % 3 == 0,
    ensures
        rgb_of_rgba(rgba_of_rgb(rgb)) == rgb,
{
    let rgba = rgba_of_rgb(rgb);
    let back = rgb_of_rgba(rgba);
    assert forall|j: int| 0 <= j < rgb.len() implies back[j] == rgb[j] by {
        let k = j / 3 * 4 + j % 3;
        assert(k / 4 == j / 3 && k % 4 == j % 3);
    }
    assert(back =~= rgb);
}


/// A copy of `image` with the same size and bytes.
pub fn copy_image(image: &RgbaImage) -> (r: RgbaImage)
    ensures
        r@ == image@,
{
    let pixels = image.pixels.clone();
    assert(pixels@ =~= image.pixels@);
    RgbaImage { pixels, width: image.width, height: image.height }
}

/// Cutting out all of an image gives the image back.
proof fn lemma_crop_whole(img: ImageView)
    requires
        img.is_rgba(),
    ensures
        cropped(img, 0, 0, img.width, img.height) == img,
{
    lemma_crop_rows_prefix(img.pixels, img.width, img.height);
    assert(img.width * img.height * 4 == img.height * img.width * 4) by (nonlinear_arith);
    assert(img.pixels.subrange(0, (img.height * img.width * 4) as int) =~= img.pixels);
}

/// Cutting the first `h` full rows gives the bytes before row `h`.
proof fn lemma_crop_rows_prefix(src: Seq<u8>, width: nat, h: nat)
    requires
        h * width * 4 <= src.len(),
    ensures
        crop_rows(src, width, 0, 0, width, h) == src.subrange(0, (h * width * 4) as int),
    decreases h,
{
    if h > 0 {
        let k: nat = (h - 1) as nat;
        assert(k * width * 4 <= h * width * 4) by (nonlinear_arith)
            requires
                k < h,
        ;
        assert((k * width + width) * 4 == h * width * 4) by (nonlinear_arith)
            requires
                k + 1 == h,
        ;
        lemma_crop_rows_prefix(src, width, k);
        assert(crop_rows(src, width, 0, 0, width, h) =~= src.subrange(0, (h * width * 4) as int));
    } else {
        assert(h * width * 4 == 0) by (nonlinear_arith)
            requires
                h == 0,
        ;
        assert(crop_rows(src, width, 0, 0, width, h) =~= src.subrange(0, 0));
    }
}

/// A rectangle given as percentages of the image it is applied to.
#[derive(Clone, Copy, Debug, PartialEq, Eq, Structural)]
pub struct Crop {
    pub left_percent: u32,
    pub top_percent: u32,
    pub width_percent: u32,
    pub height_percent: u32,
}

impl Crop {
    /// The pixel rectangle `(x1, y1, x2, y2)` on an image of `width` by
    /// `height` pixels, every coordinate rounded down.
    pub open spec fn rect(&self, width: nat, height: nat) -> (nat, nat, nat, nat) {
        let x1 = (width * self.left_percent / 100) as nat;
        let y1 = (height * self.top_percent / 100) as nat;
        (
            x1,
            y1,
            (x1 + width * self.width_percent / 100) as nat,
            (y1 + height * self.height_percent / 100) as nat,
        )
    }

    /// The rectangle ends inside an image of `width` by `height` pixels.
    pub open spec fn fits(&self, width: nat, height: nat) -> bool {
        let r = self.rect(width, height);
        r.2 <= width && r.3 <= height
    }

    /// Whether the rectangle ends inside an image of this size.
    pub fn fits_image(&self, width: u32, height: u32) -> (r: bool)
        ensures
            r == self.fits(width as nat, height as nat),
    {
        let (x1, y1, x2, y2) = self.pixel_rect(width, height);
        x2 <= width as u64 && y2 <= height as u64
    }

    /// The pixel rectangle, computed.
    fn pixel_rect(&self, width: u32, height: u32) -> (r: (u64, u64, u64, u64))
        ensures
            r.0 == self.rect(width as nat, height as nat).0,
            r.1 == self.rect(width as nat, height as nat).1,
            r.2 == self.rect(width as nat, height as nat).2,
            r.3 == self.rect(width as nat, height as nat).3,
    {
        proof {
            lemma_u32_product_bound(width, self.left_percent);
            lemma_u32_product_bound(width, self.width_percent);
            lemma_u32_product_bound(height, self.top_percent);
            lemma_u32_product_bound(height, self.height_percent);
        }
        let w: u64 = width as u64;
        let h: u64 = height as u64;
        let x1: u64 = w * self.left_percent as u64 / 100;
        let y1: u64 = h * self.top_percent as u64 / 100;
        let x2: u64 = x1 + w * self.width_percent as u64 / 100;
        let y2: u64 = y1 + h * self.height_percent as u64 / 100;
        (x1, y1, x2, y2)
    }

    /// Cuts the rectangle out of `image`.
    pub fn apply(&self, image: RgbaImage) -> (r: RgbaImage)
        requires
            image.wf(),
            self.fits(image.width as nat, image.height as nat),
        ensures
            r.wf(),
            r@ == cropped(
                image@,
                self.rect(image.width as nat, image.height as nat).0,
                self.rect(image.width as nat, image.height as nat).1,
                self.rect(image.width as nat, image.height as nat).2,
                self.rect(image.width as nat, image.height as nat).3,
            ),
    {
        let (x1, y1, x2, y2) = self.pixel_rect(image.width, image.height);
        crop(&image, x1 as u32, y1 as u32, x2 as u32, y2 as u32)
    }
}

/// The whole-image crop (`0, 0, 100, 100`) yields an image equal to its input.
pub proof fn lemma_whole_image_crop(img: ImageView)
    requires
        img.is_rgba(),
    ensures
        ({
            let c = Crop { left_percent: 0, top_percent: 0, width_percent: 100, height_percent: 100 };
            let r = c.rect(img.width, img.height);
            cropped(img, r.0, r.1, r.2, r.3) == img
        }),
{
    let c = Crop { left_percent: 0, top_percent: 0, width_percent: 100, height_percent: 100 };
    assert(img.width * 0 == 0 && img.height * 0 == 0) by (nonlinear_arith);
    assert(img.width * 100 / 100 == img.width && img.height * 100 / 100 == img.height)
        by (nonlinear_arith);
    lemma_crop_whole(img);
}


/// The bytes of an RGBA image of `width` by `height` pixels resampled to
/// `new_width` by `new_height` pixels with a Lanczos-3 filter.
pub uninterp spec fn lanczos3_resized(
    pixels: Seq<u8>,
    width: nat,
    height: nat,
    new_width: nat,
    new_height: nat,
) -> Seq<u8>;

/// The image that [`resize`] makes: the requested size, with the resampled
/// bytes.
pub open spec fn resized(img: ImageView, new_width: nat, new_height: nat) -> ImageView {
    ImageView {
        width: new_width,
        height: new_height,
        pixels: lanczos3_resized(img.pixels, img.width, img.height, new_width, new_height),
    }
}

/// Relies on `photon_rs::transform::resize` with `SamplingFilter::Lanczos3`:
/// the result has the requested size, four bytes per pixel, and bytes that
/// depend on the source image and the new size alone.
#[verifier::external_body]
fn resize(image: &RgbaImage, width: u32, height: u32) -> (r: RgbaImage)
    requires
        image.wf(),
        image.width > 0,
        image.height > 0,
        width * height * 4 <= usize::MAX,
    ensures
        r.wf(),
        r.width == width,
        r.height == height,
        r.pixels@ == lanczos3_resized(
            image.pixels@,
            image.width as nat,
            image.height as nat,
            width as nat,
            height as nat,
        ),
{
    let source = photon_rs::PhotonImage::new(image.pixels.clone(), image.width, image.height);
    let out = photon_rs::transform::resize(
        &source,
        width,
        height,
        photon_rs::transform::SamplingFilter::Lanczos3,
    );
    RgbaImage { width: out.get_width(), height: out.get_height(), pixels: out.get_raw_pixels() }
}

/// Whether the image is as wide as it is high.
pub fn is_square(image: &RgbaImage) -> (r: bool)
    ensures
        r == (image.width == image.height),
{
    image.width == image.height
}

/// The side of the largest centred square, and its top-left corner.
pub open spec fn center_square(width: nat, height: nat) -> (nat, nat, nat) {
    let side = if width <= height { width } else { height };
    (side, ((width - side) / 2) as nat, ((height - side) / 2) as nat)
}

/// The largest square centred in the image.
pub open spec fn center_squared(img: ImageView) -> ImageView {
    let (side, x1, y1) = center_square(img.width, img.height);
    cropped(img, x1, y1, x1 + side, y1 + side)
}

/// Cuts the largest centred square out of the image.
pub fn center_square_crop(image: RgbaImage) -> (r: RgbaImage)
    requires
        image.wf(),
    ensures
        r.wf(),
        r@ == center_squared(image@),
{
    let side: u32 = if image.width <= image.height { image.width } else { image.height };
    let x1: u32 = (image.width - side) / 2;
    let y1: u32 = (image.height - side) / 2;
    crop(&image, x1, y1, x1 + side, y1 + side)
}

/// The image itself when square, else its largest centred square.
pub open spec fn squared(img: ImageView) -> ImageView {
    if img.width == img.height {
        img
    } else {
        center_squared(img)
    }
}

/// Crops the image to its largest centred square unless it is square already.
pub fn ensure_square(image: RgbaImage) -> (r: RgbaImage)
    requires
        image.wf(),
    ensures
        r.wf(),
        r@ == squared(image@),
        r.width == r.height,
{
    if !is_square(&image) {
        center_square_crop(image)
    } else {
        image
    }
}

/// The image itself when it has the requested size, else the image resampled
/// to that size (the aspect ratio is not kept).
pub open spec fn sized(img: ImageView, width: nat, height: nat) -> ImageView {
    if img.width == width && img.height == height {
        img
    } else {
        resized(img, width, height)
    }
}

/// Resamples the image to `width` by `height` pixels unless it has that size
/// already.
pub fn ensure_size(image: RgbaImage, width: u32, height: u32) -> (r: RgbaImage)
    requires
        image.wf(),
        (image.width == width && image.height == height) || (image.width > 0 && image.height > 0
            && width * height * 4 <= usize::MAX),
    ensures
        r.wf(),
        r@ == sized(image@, width as nat, height as nat),
        r.width == width,
        r.height == height,
{
    if image.width == width && image.height == height {
        image
    } else {
        resize(&image, width, height)
    }
}

/// A non-empty square resampled to `side` by `side` pixels is exactly that
/// size, whatever image the square was cut from.
pub proof fn lemma_square_then_size(img: ImageView, side: nat)
    requires
        img.is_rgba(),
    ensures
        sized(squared(img), side, side).width == side,
        sized(squared(img), side, side).height == side,
{
}

/// The size after [`ensure_minimum_size`]: unchanged when neither side is
/// under `min`; otherwise both sides scaled by `min / shorter side`, rounded
/// down.
pub open spec fn minimum_size_dims(width: nat, height: nat, min: nat) -> (nat, nat) {
    if width >= min && height >= min {
        (width, height)
    } else if width <= height {
        (min, height * min / width)
    } else {
        (width * min / height, min)
    }
}

/// The image that [`ensure_minimum_size`] makes.
pub open spec fn minimum_sized(img: ImageView, min: nat) -> ImageView {
    let (w, h) = minimum_size_dims(img.width, img.height, min);
    if w == img.width && h == img.height {
        img
    } else {
        resized(img, w, h)
    }
}

/// The scaled size fits the types that hold it.
pub open spec fn minimum_size_fits(width: nat, height: nat, min: nat) -> bool {
    let (w, h) = minimum_size_dims(width, height, min);
    w <= u32::MAX && h <= u32::MAX && w * h * 4 <= usize::MAX
}

/// Scales the image up, keeping its aspect ratio, so that neither side is
/// under `min_size`.
pub fn ensure_minimum_size(image: &RgbaImage, min_size: u32) -> (r: RgbaImage)
    requires
        image.wf(),
        (image.width >= min_size && image.height >= min_size) || (image.width > 0 && image.height
            > 0 && minimum_size_fits(image.width as nat, image.height as nat, min_size as nat)),
    ensures
        r.wf(),
        r@ == minimum_sized(image@, min_size as nat),
{
    let width: u64 = image.width as u64;
    let height: u64 = image.height as u64;
    let min: u64 = min_size as u64;
    if width >= min && height >= min {
        return copy_image(image);
    }
    proof {
        lemma_u32_product_bound(image.height, min_size);
        lemma_u32_product_bound(image.width, min_size);
    }
    let (new_width, new_height): (u64, u64) = if width <= height {
        (min, height * min / width)
    } else {
        (width * min / height, min)
    };
    if new_width == width && new_height == height {
        copy_image(image)
    } else {
        resize(image, new_width as u32, new_height as u32)
    }
}

/// `side` scaled by `num / den`, rounded down.
pub open spec fn scaled(side: nat, num: nat, den: nat) -> nat {
    side * num / den
}

/// After [`ensure_minimum_size`] neither side is under the minimum, and both
/// sides are the source sides scaled by one factor of at least one, rounded
/// down: the aspect ratio holds to within one pixel.
pub proof fn lemma_minimum_size(width: nat, height: nat, min: nat)
    requires
        width > 0,
        height > 0,
    ensures
        ({
            let (w, h) = minimum_size_dims(width, height, min);
            &&& w >= min && h >= min
            &&& exists|num: nat, den: nat|
                den > 0 && num >= den && w == #[trigger] scaled(width, num, den) && h == scaled(
                    height,
                    num,
                    den,
                )
        }),
{
    let (w, h) = minimum_size_dims(width, height, min);
    if width >= min && height >= min {
        assert(w == scaled(width, 1, 1) && h == scaled(height, 1, 1));
    } else if width <= height {
        assert(height * min / width >= width * min / width) by (nonlinear_arith)
            requires
                width <= height,
                width > 0,
        ;
        assert(width * min / width == min) by (nonlinear_arith)
            requires
                width > 0,
        ;
        assert(w == scaled(width, min, width) && h == scaled(height, min, width));
    } else {
        assert(width * min / height >= height * min / height) by (nonlinear_arith)
            requires
                height < width,
                height > 0,
        ;
        assert(height * min / height == min) by (nonlinear_arith)
            requires
                height > 0,
        ;
        assert(w == scaled(width, min, height) && h == scaled(height, min, height));
    }
}


/// `img` centred in a border `padding` pixels wide on every side, the border
/// filled with the RGBA `color`.
pub open spec fn padded(img: ImageView, padding: nat, color: Seq<u8>) -> ImageView {
    let w = img.width + 2 * padding;
    let h = img.height + 2 * padding;
    ImageView {
        width: w,
        height: h,
        pixels: Seq::new(
            w * h * 4,
            |i: int|
                {
                    let x = (i / 4) % (w as int);
                    let y = (i / 4) / (w as int);
                    if padding <= x < padding + img.width && padding <= y < padding + img.height {
                        img.byte_at(x - padding, y - padding, i % 4)
                    } else {
                        color[i % 4]
                    }
                },
        ),
    }
}

/// The padded size fits the types that hold it, and the counts that
/// `photon_rs` computes on the way fit a `u32`.
pub open spec fn padding_fits(width: nat, height: nat, padding: nat) -> bool {
    &&& width + 2 * padding + 1 <= u32::MAX
    &&& height + 2 * padding <= u32::MAX
    &&& (width + 2 * padding + 1) * padding <= u32::MAX
    &&& (width + 2 * padding) * (height + 2 * padding) * 4 <= usize::MAX
}

/// Relies on `photon_rs::transform::padding_uniform`: the image is placed in
/// the middle of a border of `padding` pixels of one colour on each side.
/// Its loops lay out a non-empty image row by row as [`padded`] states.
#[verifier::external_body]
pub(crate) fn padding_uniform(image: &RgbaImage, padding: u32, color: [u8; 4]) -> (r: RgbaImage)
    requires
        image.wf(),
        image.width > 0,
        image.height > 0,
        padding_fits(image.width as nat, image.height as nat, padding as nat),
    ensures
        r.wf(),
        r@ == padded(image@, padding as nat, color@),
{
    let source = photon_rs::PhotonImage::new(image.pixels.clone(), image.width, image.height);
    let fill = photon_rs::Rgba::new(color[0], color[1], color[2], color[3]);
    let out = photon_rs::transform::padding_uniform(&source, padding, fill);
    RgbaImage { width: out.get_width(), height: out.get_height(), pixels: out.get_raw_pixels() }
}


/// Converts a packed RGB image to RGBA with an opaque alpha.
pub fn rgb_to_photon(rgb: &RgbImage) -> (r: RgbaImage)
    requires
        rgb.wf(),
        rgb.width * rgb.height * 4 <= usize::MAX,
    ensures
        r.wf(),
        r.width == rgb.width,
        r.height == rgb.height,
        r.pixels@ == rgba_of_rgb(rgb.pixels@),
{
    let ghost n = rgb.width * rgb.height;
    assert(rgb.pixels@.len() == n * 3);
    let pixels = rgb24_to_rgba32(rgb.pixels.clone());
    RgbaImage { pixels, width: rgb.width, height: rgb.height }
}

} // verus!
