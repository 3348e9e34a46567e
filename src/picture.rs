use crate::interleave::{alternate_pixels, interleave, second_reach};
use crate::resolution::{get_smallest_img, lemma_area_fits_u64, rgba_len, smallest};
use vstd::prelude::*;

verus! {

/// A decoded image: a `width` × `height` grid of RGBA8 pixels, stored row by
/// row as one flat byte buffer.
pub struct DecodedImage {
    pub width: u32,
    pub height: u32,
    pub pixels: Vec<u8>,
}

impl DecodedImage {
    /// The image's `(width, height)`.
    pub open spec fn resolution(&self) -> (u32, u32) {
        (self.width, self.height)
    }

    /// Both sides are positive and the buffer holds exactly four bytes for
    /// each pixel.
    pub open spec fn wf(&self) -> bool {
        &&& self.width > 0
        &&& self.height > 0
        &&& self.pixels@.len() == rgba_len(self.resolution())
        &&& rgba_len(self.resolution()) <= usize::MAX
    }

    /// Wraps an RGBA8 buffer as an image; `None` where a side is zero or the
    /// buffer does not hold exactly `width * height * 4` bytes.
    pub fn new(width: u32, height: u32, pixels: Vec<u8>) -> (r: Option<DecodedImage>)
        ensures
            r is Some <==> width > 0 && height > 0 && pixels@.len() == rgba_len((width, height)),
            r matches Some(img) ==> img.wf() && img.width == width && img.height == height
                && img.pixels@ == pixels@,
    {
        if width == 0 || height == 0 {
            return None;
        }
        let len: usize = pixels.len();
        proof {
            lemma_area_fits_u64((width, height));
        }
        if len % 4 != 0 || (len / 4) as u64 != width as u64 * height as u64 {
            return None;
        }
        Some(DecodedImage { width, height, pixels })
    }

    /// The image's `(width, height)`.
    pub fn dimensions(&self) -> (r: (u32, u32))
        ensures
            r == self.resolution(),
    {
        (self.width, self.height)
    }
}

/// Resampling an image of resolution `from` to resolution `to` passes through
/// an intermediate buffer of `from.0` × `to.1` RGBA pixels, which must fit in
/// memory.
pub open spec fn resample_fits(from: (u32, u32), to: (u32, u32)) -> bool {
    rgba_len((from.0, to.1)) <= usize::MAX
}

/// The pixels that `image::imageops::resize` with the triangle filter makes of
/// a `width` × `height` RGBA8 buffer at the resolution `new_width` × `new_height`.
pub uninterp spec fn triangle_resized(
    pixels: Seq<u8>,
    width: u32,
    height: u32,
    new_width: u32,
    new_height: u32,
) -> Seq<u8>;

/// Relies on `image::RgbaImage::from_raw`, which accepts a buffer of at least
/// `width * height * 4` bytes, and on `image::imageops::resize`, which returns
/// an image of exactly `new_width` × `new_height` pixels computed from the
/// source pixels alone. Its intermediate and final buffers must fit in memory.
#[verifier::external_body]
fn resize_triangle(pixels: Vec<u8>, width: u32, height: u32, new_width: u32, new_height: u32) -> (r:
    Vec<u8>)
    requires
        width > 0 && height > 0 && new_width > 0 && new_height > 0,
        pixels@.len() == rgba_len((width, height)),
        rgba_len((new_width, new_height)) <= usize::MAX,
        rgba_len((width, new_height)) <= usize::MAX,
    ensures
        r@ == triangle_resized(pixels@, width, height, new_width, new_height),
        r@.len() == rgba_len((new_width, new_height)),
{
    let source = image::RgbaImage::from_raw(width, height, pixels).unwrap();
    image::imageops::resize(&source, new_width, new_height, image::imageops::FilterType::Triangle)
        .into_raw()
}

/// The pixels of an image of resolution `res` once brought to resolution
/// `target`: unchanged where it is already there, else resampled.
pub open spec fn resampled(pixels: Seq<u8>, res: (u32, u32), target: (u32, u32)) -> Seq<u8> {
    if res == target {
        pixels
    } else {
        triangle_resized(pixels, res.0, res.1, target.0, target.1)
    }
}

/// Brings `img` to the resolution `target`, resampling it only where its own
/// resolution differs.
pub fn resample_to(img: DecodedImage, target: (u32, u32)) -> (r: DecodedImage)
    requires
        img.wf(),
        target.0 > 0 && target.1 > 0,
        rgba_len(target) <= usize::MAX,
        resample_fits(img.resolution(), target),
    ensures
        r.wf(),
        r.resolution() == target,
        r.pixels@ == resampled(img.pixels@, img.resolution(), target),
{
    if img.width == target.0 && img.height == target.1 {
        img
    } else {
        let pixels = resize_triangle(img.pixels, img.width, img.height, target.0, target.1);
        DecodedImage { width: target.0, height: target.1, pixels }
    }
}

/// Brings two images to their common working resolution, the smaller-area one
/// of the two (the first on a tie): the image already at that resolution is
/// kept as it is, and the other is resampled to it.
pub fn resize_img_size(img1: DecodedImage, img2: DecodedImage) -> (r: (DecodedImage, DecodedImage))
    requires
        img1.wf(),
        img2.wf(),
        resample_fits(img1.resolution(), smallest(img1.resolution(), img2.resolution())),
        resample_fits(img2.resolution(), smallest(img1.resolution(), img2.resolution())),
    ensures
        r.0.wf(),
        r.1.wf(),
        r.0.resolution() == smallest(img1.resolution(), img2.resolution()),
        r.1.resolution() == smallest(img1.resolution(), img2.resolution()),
        r.0.pixels@ == resampled(
            img1.pixels@,
            img1.resolution(),
            smallest(img1.resolution(), img2.resolution()),
        ),
        r.1.pixels@ == resampled(
            img2.pixels@,
            img2.resolution(),
            smallest(img1.resolution(), img2.resolution()),
        ),
{
    let target = get_smallest_img(img1.dimensions(), img2.dimensions());
    let img1 = resample_to(img1, target);
    let img2 = resample_to(img2, target);
    (img1, img2)
}

/// Interleaves the pixels of two images of one resolution.
pub fn combine_img(img1: DecodedImage, img2: DecodedImage) -> (r: Vec<u8>)
    requires
        img1.wf(),
        img2.wf(),
        img1.resolution() == img2.resolution(),
    ensures
        r@ == interleave(img1.pixels@, img2.pixels@),
{
    let len = img1.pixels.len();
    assert(len % 4 == 0 && second_reach(len as int) <= len);
    match alternate_pixels(img1.pixels, img2.pixels) {
        Ok(combined) => combined,
        Err(_) => Vec::new(),
    }
}

} // verus!
