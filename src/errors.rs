use vstd::prelude::*;

verus! {

/// Everything that can abort a merge run.
#[derive(Debug, Clone, Copy, PartialEq, Eq, Structural)]
pub enum ImageDataErrors {
    /// The two inputs were encoded in different on-disk formats.
    FormatMismatch,
    /// The data handed to an output image is longer than its capacity.
    BufferTooSmall,
    /// The data handed to an output image is shorter than its capacity.
    BufferSizeMismatch,
    /// A read went past the end of a source buffer.
    IndexOutOfRange,
    /// A pixel buffer whose length is not a whole number of RGBA pixels.
    MalformedBuffer,
}

} // verus!
