//! Combines two RGBA images into one by taking every other pixel from each.
//!
//! The two images are first brought to a common resolution: the one with the
//! smaller area is kept, and the other is resampled down to it. The two pixel
//! streams are then interleaved pixel by pixel and packed into an output image.
pub mod args;
pub mod errors;
pub mod interleave;
pub mod merge;
pub mod output;
pub mod picture;
pub mod resolution;

pub use args::Args;
pub use errors::ImageDataErrors;
pub use interleave::{alternate_pixels, set_rgba};
pub use merge::{can_resample, merge_images};
pub use output::FloatingImage;
pub use picture::{combine_img, resize_img_size, DecodedImage};
pub use resolution::get_smallest_img;
