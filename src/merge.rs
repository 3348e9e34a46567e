use crate::errors::ImageDataErrors;
use crate::interleave::interleave;
use crate::output::FloatingImage;
use crate::picture::{combine_img, resample_fits, resampled, resize_img_size, DecodedImage};
use crate::resolution::{rgba_len, smallest};
use image::ImageFormat;
use vstd::prelude::*;

verus! {

#[verifier::external_type_specification]
#[verifier::external_body]
pub struct ExImageFormat(image::ImageFormat);

/// Relies on the derived `PartialEq` of `image::ImageFormat`, an enum whose
/// variants carry no data: two formats compare equal exactly when they are the
/// same variant.
#[verifier::external_body]
fn same_format(a: &ImageFormat, b: &ImageFormat) -> (r: bool)
    ensures
        r == (*a == *b),
{
    a == b
}

/// Whether an image of resolution `from` can be resampled to resolution `to`
/// within the limits of memory.
pub fn can_resample(from: (u32, u32), to: (u32, u32)) -> (r: bool)
    ensures
        r == resample_fits(from, to),
{
    let columns: u128 = from.0 as u128;
    let rows: u128 = to.1 as u128;
    assert(columns * rows <= 0xffff_ffff_ffff_ffff_ffff_ffff_ffff_ffffu128) by (nonlinear_arith)
        requires
            columns <= 0xffff_ffff,
            rows <= 0xffff_ffff,
    ;
    columns * rows <= (usize::MAX / 4) as u128
}

/// The output of merging two images that share a format: at their working
/// resolution, named `name`, holding the interleaving of their pixels once
/// both are brought to that resolution.
pub open spec fn merged(img1: DecodedImage, img2: DecodedImage, name: Seq<char>, out: FloatingImage) -> bool {
    let target = smallest(img1.resolution(), img2.resolution());
    &&& out.wf()
    &&& out.width == target.0
    &&& out.height == target.1
    &&& out.name@ == name
    &&& out.data@ == interleave(
        resampled(img1.pixels@, img1.resolution(), target),
        resampled(img2.pixels@, img2.resolution(), target),
    )
}

/// Merges two decoded images into an output image named `output`. Fails with
/// `FormatMismatch`, before any resampling, where the two were encoded in
/// different formats; otherwise brings both to their working resolution and
/// interleaves their pixels.
pub fn merge_images(
    img1: DecodedImage,
    format1: &ImageFormat,
    img2: DecodedImage,
    format2: &ImageFormat,
    output: String,
) -> (r: Result<FloatingImage, ImageDataErrors>)
    requires
        img1.wf(),
        img2.wf(),
        resample_fits(img1.resolution(), smallest(img1.resolution(), img2.resolution())),
        resample_fits(img2.resolution(), smallest(img1.resolution(), img2.resolution())),
    ensures
        *format1 != *format2 ==> r == Err::<FloatingImage, ImageDataErrors>(
            ImageDataErrors::FormatMismatch,
        ),
        *format1 == *format2 ==> (r matches Ok(out) && merged(img1, img2, output@, out)),
{
    if !same_format(format1, format2) {
        return Err(ImageDataErrors::FormatMismatch);
    }
    let ghost target = smallest(img1.resolution(), img2.resolution());
    let (img1, img2) = resize_img_size(img1, img2);
    let mut out = FloatingImage::new(img1.width, img1.height, output);
    let combined_data = combine_img(img1, img2);
    assert(combined_data@.len() == rgba_len(target));
    match out.set_data(combined_data) {
        Ok(()) => Ok(out),
        Err(e) => Err(e),
    }
}

} // verus!
