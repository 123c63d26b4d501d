use vstd::prelude::*;
use vstd::bytes::{
    lemma_auto_spec_u32_to_from_le_bytes, lemma_auto_spec_u64_to_from_le_bytes,
    spec_u32_to_le_bytes, spec_u64_to_le_bytes,
};
use bytes::BufMut;
use crate::frame::DecodedImage;

verus! {

/// The exact byte sequence of one wire frame message, little-endian
/// throughout: destination id (8 bytes), width, height, luminance stride,
/// chrominance stride (4 bytes each), then each plane as a 4-byte length
/// followed by the plane's bytes.
pub open spec fn packed_bytes(destination_id: i64, image: DecodedImage) -> Seq<u8> {
    spec_u64_to_le_bytes(destination_id as u64) + spec_u32_to_le_bytes(image.width as u32)
        + spec_u32_to_le_bytes(image.height as u32)
        + spec_u32_to_le_bytes(image.luminance.stride as u32)
        + spec_u32_to_le_bytes(image.chrominance.stride as u32)
        + spec_u32_to_le_bytes(image.luminance.bytes@.len() as u32) + image.luminance.bytes@
        + spec_u32_to_le_bytes(image.chrominance.bytes@.len() as u32) + image.chrominance.bytes@
}

/// Relies on bytes::BufMut::put_i64_le on Vec<u8>: appends the eight bytes of
/// the value's two's-complement representation in little-endian order.
#[verifier::external_body]
fn append_i64_le(buf: &mut Vec<u8>, value: i64)
    requires
        old(buf)@.len() + 8 <= isize::MAX,
    ensures
        final(buf)@ == old(buf)@ + spec_u64_to_le_bytes(value as u64),
{
    buf.put_i64_le(value);
}

/// Relies on bytes::BufMut::put_i32_le on Vec<u8>: appends the four bytes of
/// the value's two's-complement representation in little-endian order.
#[verifier::external_body]
fn append_i32_le(buf: &mut Vec<u8>, value: i32)
    requires
        old(buf)@.len() + 4 <= isize::MAX,
    ensures
        final(buf)@ == old(buf)@ + spec_u32_to_le_bytes(value as u32),
{
    buf.put_i32_le(value);
}

/// Relies on bytes::BufMut::put_slice on Vec<u8>: appends the slice's bytes
/// unchanged (the crate forwards to Vec::extend_from_slice).
#[verifier::external_body]
fn append_bytes(buf: &mut Vec<u8>, data: &[u8])
    requires
        old(buf)@.len() + data@.len() <= isize::MAX,
    ensures
        final(buf)@ == old(buf)@ + data@,
{
    buf.put_slice(data);
}

/// Serializes one decoded picture plus a destination identifier into one
/// contiguous binary message. Pure and stateless.
pub struct FrameEncoder {}

impl FrameEncoder {
    /// Packs one picture into the wire layout, pre-sizing the buffer so the
    /// build never reallocates.
    pub fn pack(destination_id: i64, image: &DecodedImage) -> (message: Vec<u8>)
        requires
            image.wf(),
        ensures
            message@ == packed_bytes(destination_id, *image),
            message@.len() == 32 + image.luminance.bytes@.len() + image.chrominance.bytes@.len(),
    {
        proof {
            lemma_auto_spec_u64_to_from_le_bytes();
            lemma_auto_spec_u32_to_from_le_bytes();
        }
        let luminance_len: usize = image.luminance.bytes.len();
        let chrominance_len: usize = image.chrominance.bytes.len();
        let mut message: Vec<u8> = Vec::with_capacity(32 + luminance_len + chrominance_len);
        append_i64_le(&mut message, destination_id);
        append_i32_le(&mut message, image.width);
        append_i32_le(&mut message, image.height);
        append_i32_le(&mut message, image.luminance.stride);
        append_i32_le(&mut message, image.chrominance.stride);
        append_i32_le(&mut message, luminance_len as i32);
        append_bytes(&mut message, image.luminance.bytes.as_slice());
        append_i32_le(&mut message, chrominance_len as i32);
        append_bytes(&mut message, image.chrominance.bytes.as_slice());
        message
    }
}

/// Law: in a packed message the declared plane lengths are exactly the byte
/// counts of the payloads that follow them, and the whole message occupies
/// 24 + 4 + N + 4 + M bytes for plane payloads of N and M bytes.
pub proof fn lemma_packed_layout(destination_id: i64, image: DecodedImage)
    requires
        image.luminance.bytes@.len() <= i32::MAX,
        image.chrominance.bytes@.len() <= i32::MAX,
    ensures
        packed_bytes(destination_id, image).len() == 24 + 4 + image.luminance.bytes@.len() + 4
            + image.chrominance.bytes@.len(),
        packed_bytes(destination_id, image).subrange(24, 28) == spec_u32_to_le_bytes(
            image.luminance.bytes@.len() as u32,
        ),
        packed_bytes(destination_id, image).subrange(
            28,
            28 + image.luminance.bytes@.len() as int,
        ) == image.luminance.bytes@,
        packed_bytes(destination_id, image).subrange(
            28 + image.luminance.bytes@.len() as int,
            32 + image.luminance.bytes@.len() as int,
        ) == spec_u32_to_le_bytes(image.chrominance.bytes@.len() as u32),
        packed_bytes(destination_id, image).subrange(
            32 + image.luminance.bytes@.len() as int,
            32 + image.luminance.bytes@.len() as int + image.chrominance.bytes@.len() as int,
        ) == image.chrominance.bytes@,
{
    lemma_auto_spec_u64_to_from_le_bytes();
    lemma_auto_spec_u32_to_from_le_bytes();
    let n = image.luminance.bytes@.len() as int;
    let m = image.chrominance.bytes@.len() as int;
    let packed = packed_bytes(destination_id, image);
    assert(spec_u64_to_le_bytes(destination_id as u64).len() == 8);
    assert(spec_u32_to_le_bytes(image.width as u32).len() == 4);
    assert(spec_u32_to_le_bytes(image.height as u32).len() == 4);
    assert(spec_u32_to_le_bytes(image.luminance.stride as u32).len() == 4);
    assert(spec_u32_to_le_bytes(image.chrominance.stride as u32).len() == 4);
    assert(spec_u32_to_le_bytes(image.luminance.bytes@.len() as u32).len() == 4);
    assert(spec_u32_to_le_bytes(image.chrominance.bytes@.len() as u32).len() == 4);
    assert(packed.len() == 32 + n + m);
    assert(packed.subrange(24, 28) =~= spec_u32_to_le_bytes(image.luminance.bytes@.len() as u32));
    assert(packed.subrange(28, 28 + n) =~= image.luminance.bytes@);
    assert(packed.subrange(28 + n, 32 + n) =~= spec_u32_to_le_bytes(
        image.chrominance.bytes@.len() as u32,
    ));
    assert(packed.subrange(32 + n, 32 + n + m) =~= image.chrominance.bytes@);
}

} // verus!
