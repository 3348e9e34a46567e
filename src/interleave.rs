use crate::errors::ImageDataErrors;
use vstd::prelude::*;

verus! {

/// Whether byte `j` of an interleaved buffer comes from the first source:
/// it does when the offset of its 4-byte pixel is a multiple of 8, that is
/// when the pixel's index is even.
pub open spec fn from_first(j: int) -> bool {
    (j - j % 4) % 8 == 0
}

/// The interleaving of two RGBA buffers: as long as `a`, with each pixel at
/// an even index taken from `a` and each pixel at an odd index from `b`.
pub open spec fn interleave(a: Seq<u8>, b: Seq<u8>) -> Seq<u8> {
    Seq::new(a.len(), |j: int| if from_first(j) { a[j] } else { b[j] })
}

/// How many leading bytes of the second buffer the interleaving of a first
/// buffer of `len` bytes reads: up to the end of its last odd-indexed pixel.
pub open spec fn second_reach(len: int) -> int {
    8 * (len / 8)
}

/// Offset arithmetic for the pixel at byte offset `i` of a buffer of `len`
/// bytes: where its bytes lie, and how far into the second buffer the pixels
/// up to and including it reach.
proof fn lemma_pixel_step(i: int, len: int)
    requires
        0 <= i < len,
        i % 4 == 0,
        len % 4 == 0,
    ensures
        i + 4 <= len,
        forall|j: int| i <= j < i + 4 ==> #[trigger] (j - j % 4) == i,
        i % 8 == 0 ==> second_reach(i + 4) == second_reach(i),
        i % 8 != 0 ==> second_reach(i + 4) == i + 4,
        i % 8 != 0 ==> i + 4 <= second_reach(len),
{
}

/// Copies the bytes `start..=end` of `vec` into a new buffer; fails with
/// `IndexOutOfRange` where that range reaches past the end of `vec`.
pub fn set_rgba(vec: &Vec<u8>, start: usize, end: usize) -> (r: Result<Vec<u8>, ImageDataErrors>)
    ensures
        start <= end && end >= vec@.len() ==> r == Err::<Vec<u8>, ImageDataErrors>(
            ImageDataErrors::IndexOutOfRange,
        ),
        start <= end && end < vec@.len() ==> r is Ok && r->Ok_0@ == vec@.subrange(
            start as int,
            end + 1,
        ),
        start > end ==> r is Ok && r->Ok_0@.len() == 0,
{
    let mut rgba: Vec<u8> = Vec::new();
    if start > end {
        return Ok(rgba);
    }
    let len: usize = vec.len();
    if end >= len {
        return Err(ImageDataErrors::IndexOutOfRange);
    }
    let mut i: usize = start;
    while i <= end
        invariant
            start <= i <= end + 1,
            end < len,
            len == vec@.len(),
            rgba@ == vec@.subrange(start as int, i as int),
        decreases end + 1 - i,
    {
        rgba.push(vec[i]);
        assert(rgba@ =~= vec@.subrange(start as int, i + 1));
        i += 1;
    }
    Ok(rgba)
}

/// Interleaves two RGBA buffers pixel by pixel: the pixel at byte offset `i`
/// comes from `vec1` when `i % 8 == 0` and from `vec2` otherwise. Fails with
/// `MalformedBuffer` where `vec1` is not a whole number of pixels, and with
/// `IndexOutOfRange` where `vec2` is too short for the pixels read from it.
pub fn alternate_pixels(vec1: Vec<u8>, vec2: Vec<u8>) -> (r: Result<Vec<u8>, ImageDataErrors>)
    ensures
        vec1@.len() % 4 != 0 ==> r == Err::<Vec<u8>, ImageDataErrors>(
            ImageDataErrors::MalformedBuffer,
        ),
        vec1@.len() % 4 == 0 && vec2@.len() < second_reach(vec1@.len() as int) ==> r == Err::<
            Vec<u8>,
            ImageDataErrors,
        >(ImageDataErrors::IndexOutOfRange),
        vec1@.len() % 4 == 0 && vec2@.len() >= second_reach(vec1@.len() as int) ==> r is Ok
            && r->Ok_0@ == interleave(vec1@, vec2@),
{
    let len: usize = vec1.len();
    if len % 4 != 0 {
        return Err(ImageDataErrors::MalformedBuffer);
    }
    let mut combined_data: Vec<u8> = Vec::with_capacity(len);
    let mut i: usize = 0;
    while i < len
        invariant
            len == vec1@.len(),
            len % 4 == 0,
            i % 4 == 0,
            i <= len,
            vec2@.len() >= second_reach(i as int),
            combined_data@ == interleave(vec1@, vec2@).subrange(0, i as int),
        decreases len - i,
    {
        proof {
            lemma_pixel_step(i as int, len as int);
        }
        let from_vec1 = i % 8 == 0;
        let chunk = if from_vec1 {
            set_rgba(&vec1, i, i + 3)
        } else {
            set_rgba(&vec2, i, i + 3)
        };
        let mut rgba = match chunk {
            Ok(rgba) => rgba,
            Err(e) => {
                assert(vec2@.len() < second_reach(len as int));
                return Err(e);
            },
        };
        combined_data.append(&mut rgba);
        assert(combined_data@ =~= interleave(vec1@, vec2@).subrange(0, i + 4));
        i += 4;
    }
    assert(combined_data@ =~= interleave(vec1@, vec2@));
    Ok(combined_data)
}


/// Interleaving is a pure function of its two sources: equal sources give
/// equal results, so interleaving the same buffers twice gives the same bytes.
pub proof fn lemma_interleave_deterministic(a1: Seq<u8>, b1: Seq<u8>, a2: Seq<u8>, b2: Seq<u8>)
    requires
        a1 == a2,
        b1 == b2,
    ensures
        interleave(a1, b1) == interleave(a2, b2),
{
}

/// For two sources of equal length `L`, a multiple of 4, the interleaving has
/// length `L`, and its 4-byte chunk at each offset `i` is the chunk of `a` at
/// `i` when `i % 8 == 0`, else the chunk of `b` at `i`.
pub proof fn lemma_interleave_chunks(a: Seq<u8>, b: Seq<u8>)
    requires
        a.len() % 4 == 0,
        b.len() == a.len(),
    ensures
        interleave(a, b).len() == a.len(),
        forall|i: int|
            0 <= i < a.len() && i % 4 == 0 ==> #[trigger] interleave(a, b).subrange(i, i + 4) == (
            if i % 8 == 0 {
                a.subrange(i, i + 4)
            } else {
                b.subrange(i, i + 4)
            }),
{
    assert forall|i: int| 0 <= i < a.len() && i % 4 == 0 implies #[trigger] interleave(
        a,
        b,
    ).subrange(i, i + 4) == (if i % 8 == 0 {
        a.subrange(i, i + 4)
    } else {
        b.subrange(i, i + 4)
    }) by {
        lemma_pixel_step(i, a.len() as int);
        if i % 8 == 0 {
            assert(interleave(a, b).subrange(i, i + 4) =~= a.subrange(i, i + 4));
        } else {
            assert(interleave(a, b).subrange(i, i + 4) =~= b.subrange(i, i + 4));
        }
    }
}

} // verus!
