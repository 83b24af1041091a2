//! Preparing frames for image classification.
use vstd::prelude::*;
use crate::error::{Error, ErrorKind};
use crate::image::{ImageView, RgbaImage};
use crate::photon::{Crop, ensure_size, ensure_square, rgb_of_rgba, rgba32_to_rgb24, sized, squared};
use crate::tesseract::{crop_fits, ocr_cropped, outside_image};

verus! {

/// Side length of the square image that the model expects.
pub const TENSOR_SIZE: u32 = 224;

/// Colour channels the model expects (RGB).
pub const TENSOR_CHANNELS: u32 = 3;

/// The name of the model's input in its serving signature.
pub const INPUT_NAME: &'static str = "Image";

/// The name of the model's output in its serving signature.
pub const OUTPUT_NAME: &'static str = "Confidences";

/// The frame as the model sees it: cropped, cut to its centred square and
/// resampled to 224 × 224 pixels.
pub open spec fn model_image(crop: Option<Crop>, img: ImageView) -> ImageView {
    sized(squared(ocr_cropped(crop, img)), TENSOR_SIZE as nat, TENSOR_SIZE as nat)
}

/// How a classifier trigger prepares each frame: an optional crop.
#[derive(Clone, Copy, Debug)]
pub struct TensorflowTrigger {
    pub crop: Option<Crop>,
}

impl TensorflowTrigger {
    pub fn new(crop: Option<Crop>) -> (r: TensorflowTrigger)
        ensures
            r.crop == crop,
    {
        TensorflowTrigger { crop }
    }

    /// Crops the frame, cuts it to its centred square and resamples it to
    /// 224 × 224 pixels. A crop that ends outside the frame, or an empty
    /// region, is refused.
    pub fn preprocess_image(&self, image: RgbaImage) -> (r: Result<RgbaImage, Error>)
        requires
            image.wf(),
        ensures
            r is Ok <==> crop_fits(self.crop, image@) && ocr_cropped(self.crop, image@).width > 0
                && ocr_cropped(
                self.crop,
                image@,
            ).height > 0,
            r matches Err(e) ==> e.kind == ErrorKind::FrameGeometry,
            r matches Ok(out) ==> out.wf() && out@ == model_image(self.crop, image@)
                && out.width == TENSOR_SIZE && out.height == TENSOR_SIZE,
    {
        let mut image = image;
        match &self.crop {
            Some(crop) => {
                if !crop.fits_image(image.width, image.height) {
                    return Err(outside_image());
                }
                image = crop.apply(image);
            },
            None => {},
        }
        if image.width == 0 || image.height == 0 {
            return Err(
                Error::from_display(
                    ErrorKind::FrameGeometry,
                    String::from_str("the region to classify is empty"),
                ),
            );
        }
        image = ensure_square(image);
        Ok(ensure_size(image, TENSOR_SIZE, TENSOR_SIZE))
    }
}

/// The packed RGB bytes of a prepared image, in the order the model's input
/// tensor `[1, 224, 224, 3]` takes them.
pub fn model_input_bytes(image: &RgbaImage) -> (r: Vec<u8>)
    requires
        image.wf(),
    ensures
        r@ == rgb_of_rgba(image.pixels@),
{
    assert(image.pixels@.len() == (image.width * image.height) * 4);
    rgba32_to_rgb24(image.pixels.clone())
}

} // verus!
