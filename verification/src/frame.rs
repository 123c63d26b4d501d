use vstd::prelude::*;

verus! {

/// One compressed video frame as the transport layer delivers it: the
/// dimensions the sender encoded it at, and the compressed bitstream bytes.
pub struct CompressedVideoFrame {
    pub width: i32,
    pub height: i32,
    pub buffer: Vec<u8>,
}

/// One component plane of a decoded picture: its row stride in bytes and the
/// raw plane bytes, copied out of the backend's picture buffer.
pub struct Plane {
    pub stride: i32,
    pub bytes: Vec<u8>,
}

/// A decoded picture in a luminance/chrominance layout with half-height
/// chrominance rows. A picture is transient: it exists for one drain pass and
/// is packed and handed on before the backend's picture buffer is reused.
pub struct DecodedImage {
    pub width: i32,
    pub height: i32,
    pub luminance: Plane,
    pub chrominance: Plane,
}

impl DecodedImage {
    /// A picture as the backend hands it out: positive dimensions and strides,
    /// plane sizes that follow from them (one full-stride row per picture row
    /// for luminance, half that for chrominance), and sizes small enough for
    /// the wire format's 32-bit length fields and for one contiguous buffer.
    pub open spec fn wf(self) -> bool {
        &&& 0 < self.width
        &&& 0 < self.height
        &&& 0 < self.luminance.stride
        &&& 0 < self.chrominance.stride
        &&& self.luminance.bytes@.len() == self.height * self.luminance.stride
        &&& self.chrominance.bytes@.len() == self.height * self.chrominance.stride / 2
        &&& self.luminance.bytes@.len() <= i32::MAX
        &&& self.chrominance.bytes@.len() <= i32::MAX
        &&& self.luminance.bytes@.len() + self.chrominance.bytes@.len() + 32 <= isize::MAX
    }
}

} // verus!
