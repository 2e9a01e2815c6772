use vstd::prelude::*;
use byteorder::{ByteOrder, NativeEndian};

verus! {

/// The four bytes of `v`, least significant first.
pub open spec fn le_bytes(v: u32) -> Seq<u8> {
    seq![(v % 256) as u8, ((v / 256) % 256) as u8, ((v / 65536) % 256) as u8, (v / 16777216) as u8]
}

/// The four bytes of `v`, most significant first.
pub open spec fn be_bytes(v: u32) -> Seq<u8> {
    seq![(v / 16777216) as u8, ((v / 65536) % 256) as u8, ((v / 256) % 256) as u8, (v % 256) as u8]
}

/// Whether `bytes` holds `pixels` four bytes each, least significant first.
pub open spec fn le_encoded(bytes: Seq<u8>, pixels: Seq<u32>) -> bool {
    &&& bytes.len() == 4 * pixels.len()
    &&& forall|i: int|
        0 <= i < pixels.len() ==> #[trigger] bytes.subrange(4 * i, 4 * i + 4) == le_bytes(
            pixels[i],
        )
}

/// Whether `bytes` holds `pixels` four bytes each, most significant first.
pub open spec fn be_encoded(bytes: Seq<u8>, pixels: Seq<u32>) -> bool {
    &&& bytes.len() == 4 * pixels.len()
    &&& forall|i: int|
        0 <= i < pixels.len() ==> #[trigger] bytes.subrange(4 * i, 4 * i + 4) == be_bytes(
            pixels[i],
        )
}

/// Whether `bytes` holds `pixels` in the byte order of the machine, which is one of the
/// two orders.
pub open spec fn native_encoded(bytes: Seq<u8>, pixels: Seq<u32>) -> bool {
    le_encoded(bytes, pixels) || be_encoded(bytes, pixels)
}

/// `byteorder::NativeEndian::write_u32_into`: writes each pixel of `src` as four bytes
/// into `dst`, whose length must be four times that of `src` (the crate panics
/// otherwise). The crate takes `NativeEndian` to be `LittleEndian` or `BigEndian` by the
/// target's byte order, and each writes `u32::to_le_bytes` or `u32::to_be_bytes`; which of
/// the two this is depends on the machine and is not stated, only that it is one of them
/// for the whole slice.
#[verifier::external_body]
fn write_native_u32_into(src: &[u32], dst: &mut Vec<u8>)
    requires
        old(dst)@.len() == 4 * src@.len(),
    ensures
        native_encoded(final(dst)@, src@),
{
    NativeEndian::write_u32_into(src, dst.as_mut_slice())
}

/// The bytes of `px` as the compositor reads them from shared memory: each pixel as four
/// bytes in the machine's byte order.
pub fn encode_pixels(px: &[u32]) -> (bytes: Vec<u8>)
    requires
        4 * px@.len() <= usize::MAX,
    ensures
        native_encoded(bytes@, px@),
{
    let n = 4 * px.len();
    let mut bytes: Vec<u8> = Vec::new();
    let mut k: usize = 0;
    while k < n
        invariant
            k <= n,
            n == 4 * px@.len(),
            bytes@.len() == k,
        decreases n - k,
    {
        bytes.push(0u8);
        k = k + 1;
    }
    write_native_u32_into(px, &mut bytes);
    bytes
}

} // verus!
