use crate::errors::ImageDataErrors;
use crate::resolution::{lemma_area_fits_u64, rgba_len};
use vstd::prelude::*;

verus! {

/// The output image: a declared resolution, a name for the encoder, and a
/// buffer that is empty until `set_data` fills it.
pub struct FloatingImage {
    pub width: u32,
    pub height: u32,
    pub data: Vec<u8>,
    pub name: String,
}

impl FloatingImage {
    /// Bytes that an RGBA8 image of the declared resolution takes.
    pub open spec fn capacity(&self) -> int {
        rgba_len((self.width, self.height))
    }

    /// The capacity fits in memory and the buffer does not exceed it.
    pub open spec fn wf(&self) -> bool {
        &&& self.capacity() <= usize::MAX
        &&& self.data@.len() <= self.capacity()
    }

    /// Declares an output image of `width` × `height` pixels named `name`,
    /// with room reserved for its pixels and no data yet.
    pub fn new(width: u32, height: u32, name: String) -> (r: FloatingImage)
        requires
            rgba_len((width, height)) <= usize::MAX,
        ensures
            r.wf(),
            r.width == width,
            r.height == height,
            r.name@ == name@,
            r.data@.len() == 0,
    {
        proof {
            lemma_area_fits_u64((width, height));
        }
        let buffer_capacity: usize = width as usize * height as usize * 4;
        let buffer: Vec<u8> = Vec::with_capacity(buffer_capacity);
        FloatingImage { width, height, data: buffer, name }
    }

    /// Hands the image its pixels. Fails with `BufferTooSmall` where `data` is
    /// longer than the capacity, and with `BufferSizeMismatch` where it is
    /// shorter; the image is then left as it was.
    pub fn set_data(&mut self, data: Vec<u8>) -> (r: Result<(), ImageDataErrors>)
        requires
            old(self).wf(),
        ensures
            final(self).wf(),
            data@.len() > old(self).capacity() ==> r == Err::<(), ImageDataErrors>(
                ImageDataErrors::BufferTooSmall,
            ),
            data@.len() < old(self).capacity() ==> r == Err::<(), ImageDataErrors>(
                ImageDataErrors::BufferSizeMismatch,
            ),
            data@.len() == old(self).capacity() ==> r is Ok,
            r is Ok ==> final(self).data@ == data@,
            r is Err ==> final(self).data@ == old(self).data@,
            final(self).width == old(self).width,
            final(self).height == old(self).height,
            final(self).name@ == old(self).name@,
    {
        let capacity: usize = self.width as usize * self.height as usize * 4;
        if data.len() > capacity {
            return Err(ImageDataErrors::BufferTooSmall);
        }
        if data.len() < capacity {
            return Err(ImageDataErrors::BufferSizeMismatch);
        }
        self.data = data;
        Ok(())
    }
}

} // verus!
