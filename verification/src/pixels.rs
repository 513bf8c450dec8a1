//! Byte layout of packed 32-bit pixels.
//!
//! A pixel is one `u32`, `0x00RRGGBB`: blue in the lowest byte, then green,
//! then red; the highest byte is carried along and ignored by whoever shows
//! the frame. In memory a pixel is its four bytes from the lowest to the
//! highest, and a frame is its pixels one after the other, row by row, with
//! nothing between the rows.

use vstd::prelude::*;

verus! {

/// The four bytes of `pixel`, lowest first: blue, green, red, unused.
pub open spec fn pixel_bytes(pixel: u32) -> Seq<u8> {
    seq![
        (pixel % 256) as u8,
        (pixel / 256 % 256) as u8,
        (pixel / 65536 % 256) as u8,
        (pixel / 16777216) as u8,
    ]
}

/// The pixel that four bytes, lowest first, stand for.
pub open spec fn pixel_of_bytes(bytes: Seq<u8>) -> u32
    recommends
        bytes.len() == 4,
{
    (bytes[0] + 256 * bytes[1] + 65536 * bytes[2] + 16777216 * bytes[3]) as u32
}

/// The bytes of a whole frame: byte `i` is byte `i % 4` of pixel `i / 4`.
pub open spec fn frame_bytes(pixels: Seq<u32>) -> Seq<u8> {
    Seq::new(4 * pixels.len(), |i: int| pixel_bytes(pixels[i / 4])[i % 4])
}

/// The pixels that a run of bytes stands for, four bytes to a pixel.
pub open spec fn frame_pixels(bytes: Seq<u8>) -> Seq<u32> {
    Seq::new(bytes.len() / 4, |i: int| pixel_of_bytes(bytes.subrange(4 * i, 4 * i + 4)))
}

/// Splits a pixel into its four bytes, lowest first.
pub fn encode_pixel(pixel: u32) -> (bytes: [u8; 4])
    ensures
        bytes@ == pixel_bytes(pixel),
{
    let b0: u8 = (pixel & 0xff) as u8;
    let b1: u8 = ((pixel >> 8) & 0xff) as u8;
    let b2: u8 = ((pixel >> 16) & 0xff) as u8;
    let b3: u8 = (pixel >> 24) as u8;
    assert((pixel & 0xff) as u8 == (pixel % 256) as u8) by (bit_vector);
    assert(((pixel >> 8) & 0xff) as u8 == (pixel / 256 % 256) as u8) by (bit_vector);
    assert(((pixel >> 16) & 0xff) as u8 == (pixel / 65536 % 256) as u8) by (bit_vector);
    assert((pixel >> 24) as u8 == (pixel / 16777216) as u8) by (bit_vector);
    let bytes: [u8; 4] = [b0, b1, b2, b3];
    assert(bytes@ =~= pixel_bytes(pixel));
    bytes
}

/// Overwrites `store` with the bytes of `pixels`.
///
/// The store keeps its length: it has to hold exactly four bytes for each
/// pixel before the call.
pub(crate) fn write_frame(store: &mut Vec<u8>, pixels: &[u32])
    requires
        old(store)@.len() == 4 * pixels@.len(),
    ensures
        final(store)@ == frame_bytes(pixels@),
{
    let n: usize = pixels.len();
    let mut i: usize = 0;
    assert(4 * n == store.len());
    while i < n
        invariant
            n == pixels@.len(),
            store@.len() == 4 * n,
            4 * n <= usize::MAX,
            i <= n,
            forall|k: int| 0 <= k < 4 * i ==> store@[k] == #[trigger] frame_bytes(pixels@)[k],
        decreases n - i,
    {
        let bytes: [u8; 4] = encode_pixel(pixels[i]);
        let at: usize = 4 * i;
        store.set(at, bytes[0]);
        store.set(at + 1, bytes[1]);
        store.set(at + 2, bytes[2]);
        store.set(at + 3, bytes[3]);
        i += 1;
    }
    assert(store@ =~= frame_bytes(pixels@));
}

/// A frame takes four bytes for each pixel and nothing more: no padding
/// between rows or after the last one.
pub proof fn lemma_frame_bytes_len(pixels: Seq<u32>)
    ensures
        frame_bytes(pixels).len() == 4 * pixels.len(),
{
}

/// Pixel `i` of a frame occupies bytes `4 * i .. 4 * i + 4`, and they are
/// exactly the four bytes of that pixel.
pub proof fn lemma_frame_bytes_chunk(pixels: Seq<u32>, i: int)
    requires
        0 <= i < pixels.len(),
    ensures
        frame_bytes(pixels).subrange(4 * i, 4 * i + 4) == pixel_bytes(pixels[i]),
{
    let chunk = frame_bytes(pixels).subrange(4 * i, 4 * i + 4);
    assert forall|k: int| 0 <= k < 4 implies chunk[k] == pixel_bytes(pixels[i])[k] by {
        assert((4 * i + k) / 4 == i);
        assert((4 * i + k) % 4 == k);
    }
    assert(chunk =~= pixel_bytes(pixels[i]));
}

/// The four bytes of a pixel give the pixel back.
pub proof fn lemma_pixel_round_trip(pixel: u32)
    ensures
        pixel_bytes(pixel).len() == 4,
        pixel_of_bytes(pixel_bytes(pixel)) == pixel,
{
    assert(pixel == (pixel % 256) as u8 + 256 * ((pixel / 256 % 256) as u8) + 65536 * ((pixel
        / 65536 % 256) as u8) + 16777216 * ((pixel / 16777216) as u8)) by (bit_vector);
}

/// Reading a frame back from its bytes gives the pixels that were written:
/// the layout loses nothing.
pub proof fn lemma_frame_round_trip(pixels: Seq<u32>)
    ensures
        frame_pixels(frame_bytes(pixels)) == pixels,
{
    let back = frame_pixels(frame_bytes(pixels));
    assert(back.len() == pixels.len());
    assert forall|i: int| 0 <= i < pixels.len() implies back[i] == pixels[i] by {
        lemma_frame_bytes_chunk(pixels, i);
        lemma_pixel_round_trip(pixels[i]);
    }
    assert(back =~= pixels);
}

} // verus!
