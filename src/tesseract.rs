//! Preparing frames for optical character recognition.
use vstd::prelude::*;
use crate::error::{Error, ErrorKind};
use crate::image::{ImageView, RgbaImage};
use crate::photon::{
    Crop, cropped, ensure_minimum_size, minimum_size_fits, minimum_sized, padded, padding_fits,
    padding_uniform,
};
use crate::threshold::{ThresholdFilter, is_thresholded, threshold_color_distance};

verus! {

/// The side under which an image is scaled up before OCR, and the width of
/// the white border put around it.
pub const MIN_TESSERACT_IMAGE_SIZE: u32 = 32;

/// The resolution hint handed to the OCR engine, in dots per inch.
pub const SOURCE_RESOLUTION_DPI: i32 = 96;

/// The language used unless another is given.
pub const DEFAULT_LANGUAGE: &'static str = "eng";

/// Where language data files are fetched from.
pub const TRAINEDDATA_BASE_URL: &'static str = "https://github.com/tesseract-ocr/tessdata/raw/4.00/";

/// The file name of a language's data.
pub open spec fn traineddata_file_name_of(language: Seq<char>) -> Seq<char> {
    language + ".traineddata"@
}

/// `<language>.traineddata`.
pub fn traineddata_file_name(language: &str) -> (r: String)
    ensures
        r@ == traineddata_file_name_of(language@),
{
    let mut name = String::from_str(language);
    name.append(".traineddata");
    name
}

/// The address of a language's data file.
pub fn traineddata_url(language: &str) -> (r: String)
    ensures
        r@ == TRAINEDDATA_BASE_URL@ + traineddata_file_name_of(language@),
{
    let mut url = String::from_str(TRAINEDDATA_BASE_URL);
    let name = traineddata_file_name(language);
    url.append(name.as_str());
    url
}

/// The RGBA colour of the border put around an image before OCR.
pub open spec fn white() -> Seq<u8> {
    seq![255u8, 255u8, 255u8, 255u8]
}

/// How an OCR trigger prepares each frame: an optional crop and an optional
/// threshold filter.
#[derive(Clone, Copy, Debug)]
pub struct TesseractTrigger {
    /// The region to read, as percentages of the frame.
    pub crop: Option<Crop>,
    /// The binarization applied after scaling.
    pub threshold_filter: Option<ThresholdFilter>,
}

/// The image after the crop step.
pub open spec fn ocr_cropped(crop: Option<Crop>, img: ImageView) -> ImageView {
    match crop {
        Some(c) => {
            let r = c.rect(img.width, img.height);
            cropped(img, r.0, r.1, r.2, r.3)
        },
        None => img,
    }
}

/// The crop, if any, ends inside the image.
pub open spec fn crop_fits(crop: Option<Crop>, img: ImageView) -> bool {
    crop matches Some(c) ==> c.fits(img.width, img.height)
}

/// The crop ends inside the image, and the cut-out can go through scaling and
/// padding.
pub open spec fn ocr_preparable(crop: Option<Crop>, img: ImageView) -> bool {
    let a = ocr_cropped(crop, img);
    let b = minimum_sized(a, MIN_TESSERACT_IMAGE_SIZE as nat);
    &&& crop_fits(crop, img)
    &&& a.width > 0 && a.height > 0
    &&& minimum_size_fits(a.width, a.height, MIN_TESSERACT_IMAGE_SIZE as nat)
    &&& padding_fits(b.width, b.height, MIN_TESSERACT_IMAGE_SIZE as nat)
}

impl TesseractTrigger {
    /// No crop, no filter.
    pub fn new() -> (r: TesseractTrigger)
        ensures
            r.crop is None,
            r.threshold_filter is None,
    {
        TesseractTrigger { crop: None, threshold_filter: None }
    }

    /// Prepares an RGBA frame for OCR: crop, scale up so that neither side is
    /// under 32 pixels, binarize when a filter is set, and add a white border
    /// 32 pixels wide. `is_far` tells whether a colour is at least the
    /// filter's threshold away from the filter's colour.
    pub fn preprocess_image<F: Fn(u8, u8, u8) -> bool>(&self, image: RgbaImage, is_far: &F) -> (r:
        Result<RgbaImage, Error>)
        requires
            image.wf(),
            forall|r: u8, g: u8, b: u8| is_far.requires((r, g, b)),
        ensures
            r is Ok <==> ocr_preparable(self.crop, image@),
            r matches Err(e) ==> e.kind == ErrorKind::FrameGeometry,
            r matches Ok(out) ==> {
                let b = minimum_sized(
                    ocr_cropped(self.crop, image@),
                    MIN_TESSERACT_IMAGE_SIZE as nat,
                );
                &&& out.wf()
                &&& self.threshold_filter is None ==> out@ == padded(
                    b,
                    MIN_TESSERACT_IMAGE_SIZE as nat,
                    white(),
                )
                &&& self.threshold_filter is Some ==> exists|c: ImageView|
                    c.width == b.width && c.height == b.height && is_thresholded(
                        c.pixels,
                        b.pixels,
                        *is_far,
                    ) && out@ == #[trigger] padded(c, MIN_TESSERACT_IMAGE_SIZE as nat, white())
            },
    {
        let mut image = image;
        match &self.crop {
            Some(crop) => {
                if !crop.fits_image(image.width, image.height) {
                    return Err(outside_image());
                }
                image = crop.apply(image);
            },
            None => {},
        }
        if image.width == 0 || image.height == 0 {
            return Err(empty_region());
        }
        if !fits_minimum_size(image.width, image.height, MIN_TESSERACT_IMAGE_SIZE) {
            return Err(oversized());
        }
        proof {
            crate::photon::lemma_minimum_size(
                image.width as nat,
                image.height as nat,
                MIN_TESSERACT_IMAGE_SIZE as nat,
            );
        }
        image = ensure_minimum_size(&image, MIN_TESSERACT_IMAGE_SIZE);
        if !fits_padding(image.width, image.height, MIN_TESSERACT_IMAGE_SIZE) {
            return Err(oversized());
        }
        let ghost scaled = image@;
        match &self.threshold_filter {
            Some(_) => {
                image = threshold_color_distance(image, is_far);
            },
            None => {},
        }
        let padded_image = padding_uniform(&image, MIN_TESSERACT_IMAGE_SIZE, [255u8, 255u8, 255u8, 255u8]);
        proof {
            assert([255u8, 255u8, 255u8, 255u8]@ =~= white());
            if self.threshold_filter is Some {
                assert(padded_image@ == padded(image@, MIN_TESSERACT_IMAGE_SIZE as nat, white()));
            }
        }
        Ok(padded_image)
    }
}

fn empty_region() -> (r: Error)
    ensures
        r.kind == ErrorKind::FrameGeometry,
{
    Error::from_display(ErrorKind::FrameGeometry, String::from_str("the region to read is empty"))
}

/// The error for a crop rectangle that ends outside the frame.
pub fn outside_image() -> (r: Error)
    ensures
        r.kind == ErrorKind::FrameGeometry,
{
    Error::from_display(ErrorKind::FrameGeometry, String::from_str("the crop ends outside the frame"))
}

fn oversized() -> (r: Error)
    ensures
        r.kind == ErrorKind::FrameGeometry,
{
    Error::from_display(ErrorKind::FrameGeometry, String::from_str("the region to read is too large"))
}

/// Whether an image of this size can be scaled to the minimum side.
pub fn fits_minimum_size(width: u32, height: u32, min: u32) -> (r: bool)
    requires
        width > 0,
        height > 0,
    ensures
        r == minimum_size_fits(width as nat, height as nat, min as nat),
{
    let w: u128 = width as u128;
    let h: u128 = height as u128;
    let m: u128 = min as u128;
    proof {
        crate::image::lemma_u32_product_bound(height, min);
        crate::image::lemma_u32_product_bound(width, min);
        crate::image::lemma_u32_product_bound(width, height);
    }
    let (nw, nh): (u128, u128) = if w >= m && h >= m {
        (w, h)
    } else if w <= h {
        (m, h * m / w)
    } else {
        (w * m / h, m)
    };
    if nw > 0xffff_ffff || nh > 0xffff_ffff {
        return false;
    }
    proof {
        crate::image::lemma_u32_product_bound(nw as u32, nh as u32);
    }
    nw * nh * 4 <= usize::MAX as u128
}

/// Whether an image of this size can get a border of `padding` pixels.
pub fn fits_padding(width: u32, height: u32, padding: u32) -> (r: bool)
    ensures
        r == padding_fits(width as nat, height as nat, padding as nat),
{
    let w: u128 = width as u128 + 2 * padding as u128;
    let h: u128 = height as u128 + 2 * padding as u128;
    if w + 1 > 0xffff_ffff || h > 0xffff_ffff {
        return false;
    }
    proof {
        crate::image::lemma_u32_product_bound(w as u32, h as u32);
        assert((w + 1) * padding <= 0x1_0000_0000 * 0xffff_ffff) by (nonlinear_arith)
            requires
                w <= 0xffff_ffff,
                padding <= 0xffff_ffff,
        ;
    }
    (w + 1) * padding as u128 <= 0xffff_ffff && w * h * 4 <= usize::MAX as u128
}

/// What the OCR engine is handed for one image: RGBA bytes, the size, four
/// bytes per pixel, the length of a row in bytes, and the resolution hint.
#[derive(Clone, Debug)]
pub struct OcrInput {
    pub pixels: Vec<u8>,
    pub width: i32,
    pub height: i32,
    pub bytes_per_pixel: i32,
    pub bytes_per_line: i32,
    pub source_resolution: i32,
}

/// Describes a prepared RGBA image for the OCR engine, whose sizes are `i32`.
pub fn ocr_input(image: RgbaImage) -> (r: Result<OcrInput, Error>)
    requires
        image.wf(),
    ensures
        r is Ok <==> image.width * 4 <= i32::MAX && image.height <= i32::MAX,
        r matches Err(e) ==> e.kind == ErrorKind::FrameGeometry,
        r matches Ok(input) ==> input.pixels@ == image.pixels@ && input.width == image.width
            && input.height == image.height && input.bytes_per_pixel == 4 && input.bytes_per_line
            == image.width * 4 && input.source_resolution == SOURCE_RESOLUTION_DPI,
{
    if image.width as u64 * 4 > 0x7fff_ffff || image.height as u64 > 0x7fff_ffff {
        return Err(oversized());
    }
    let width: i32 = image.width as i32;
    let height: i32 = image.height as i32;
    Ok(
        OcrInput {
            pixels: image.pixels,
            width,
            height,
            bytes_per_pixel: 4,
            bytes_per_line: width * 4,
            source_resolution: SOURCE_RESOLUTION_DPI,
        },
    )
}

} // verus!
