//! Image buffers and their mathematical view.
use vstd::prelude::*;
use crate::error::{Error, ErrorKind};

verus! {

/// An image as a mathematical value: its size and its bytes, row by row from
/// the top, left to right within a row.
pub ghost struct ImageView {
    pub width: nat,
    pub height: nat,
    pub pixels: Seq<u8>,
}

impl ImageView {
    /// Four bytes per pixel (red, green, blue, alpha).
    pub open spec fn is_rgba(self) -> bool {
        self.pixels.len() == self.width * self.height * 4
    }

    /// Byte `c` of the pixel at column `x`, row `y`, of an RGBA image.
    pub open spec fn byte_at(self, x: int, y: int, c: int) -> u8 {
        self.pixels[(y * self.width + x) * 4 + c]
    }
}

/// A product of two `u32` values fits well inside a `u128`.
pub proof fn lemma_u32_product_bound(a: u32, b: u32)
    ensures
        0 <= a as int * b as int <= 0xffff_ffff * 0xffff_ffff,
{
    assert(0 <= a as int * b as int <= 0xffff_ffff * 0xffff_ffff) by (nonlinear_arith)
        requires
            a <= 0xffff_ffff,
            b <= 0xffff_ffff,
    ;
}

/// An RGBA image: four bytes per pixel, rows from the top.
#[derive(Clone, Debug)]
pub struct RgbaImage {
    pub pixels: Vec<u8>,
    pub width: u32,
    pub height: u32,
}

impl View for RgbaImage {
    type V = ImageView;

    open spec fn view(&self) -> ImageView {
        ImageView { width: self.width as nat, height: self.height as nat, pixels: self.pixels@ }
    }
}

impl RgbaImage {
    /// The byte count matches the declared size.
    pub open spec fn wf(&self) -> bool {
        self@.is_rgba()
    }

    /// Builds an image from its bytes, refusing a byte count that does not
    /// match the size.
    pub fn new(pixels: Vec<u8>, width: u32, height: u32) -> (r: Result<RgbaImage, Error>)
        ensures
            r is Ok <==> pixels@.len() == width * height * 4,
            r matches Ok(img) ==> img.wf() && img.pixels@ == pixels@ && img.width == width
                && img.height == height,
            r matches Err(e) ==> e.kind == ErrorKind::FrameGeometry,
    {
        proof {
            lemma_u32_product_bound(width, height);
        }
        if pixels.len() as u128 == width as u128 * height as u128 * 4 {
            Ok(RgbaImage { pixels, width, height })
        } else {
            Err(Error::from_display(ErrorKind::FrameGeometry, String::from_str("byte count does not match the image size")))
        }
    }

    pub fn get_width(&self) -> (r: u32)
        ensures
            r == self.width,
    {
        self.width
    }

    pub fn get_height(&self) -> (r: u32)
        ensures
            r == self.height,
    {
        self.height
    }

    /// A copy of the image's bytes.
    pub fn get_raw_pixels(&self) -> (r: Vec<u8>)
        ensures
            r@ == self.pixels@,
    {
        self.pixels.clone()
    }
}

/// A packed RGB image: three bytes per pixel, rows from the top.
#[derive(Clone, Debug)]
pub struct RgbImage {
    pub pixels: Vec<u8>,
    pub width: u32,
    pub height: u32,
}

impl View for RgbImage {
    type V = ImageView;

    open spec fn view(&self) -> ImageView {
        ImageView { width: self.width as nat, height: self.height as nat, pixels: self.pixels@ }
    }
}

impl RgbImage {
    /// Three bytes per pixel: the byte count matches the declared size.
    pub open spec fn wf(&self) -> bool {
        self.pixels@.len() == self.width * self.height * 3
    }

    /// Builds an image from its bytes, refusing a byte count that does not
    /// match the size.
    pub fn from_vec(width: u32, height: u32, pixels: Vec<u8>) -> (r: Result<RgbImage, Error>)
        ensures
            r is Ok <==> pixels@.len() == width * height * 3,
            r matches Ok(img) ==> img.wf() && img.pixels@ == pixels@ && img.width == width
                && img.height == height,
            r matches Err(e) ==> e.kind == ErrorKind::FrameGeometry,
    {
        proof {
            lemma_u32_product_bound(width, height);
        }
        if pixels.len() as u128 == width as u128 * height as u128 * 3 {
            Ok(RgbImage { pixels, width, height })
        } else {
            Err(Error::from_display(ErrorKind::FrameGeometry, String::from_str("byte count does not match the image size")))
        }
    }

    pub fn width(&self) -> (r: u32)
        ensures
            r == self.width,
    {
        self.width
    }

    pub fn height(&self) -> (r: u32)
        ensures
            r == self.height,
    {
        self.height
    }
}

} // verus!
