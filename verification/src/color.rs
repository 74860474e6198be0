//! Pixels as 32-bit ARGB values and the bytes that hold them.
use vstd::prelude::*;

verus! {

/// The bytes of `v`, least significant first.
pub open spec fn le_bytes(v: u32) -> Seq<u8> {
    seq![
        (v % 0x100) as u8,
        ((v / 0x100) % 0x100) as u8,
        ((v / 0x1_0000) % 0x100) as u8,
        (v / 0x100_0000) as u8,
    ]
}

/// The bytes of `v`, most significant first.
pub open spec fn be_bytes(v: u32) -> Seq<u8> {
    seq![
        (v / 0x100_0000) as u8,
        ((v / 0x1_0000) % 0x100) as u8,
        ((v / 0x100) % 0x100) as u8,
        (v % 0x100) as u8,
    ]
}

/// `bytes` is `v` as the machine stores a `u32`: in one of the two byte
/// orders.
pub open spec fn is_native_encoding(bytes: Seq<u8>, v: u32) -> bool {
    bytes == le_bytes(v) || bytes == be_bytes(v)
}

/// `u32::to_ne_bytes`, which std documents as the memory representation
/// of the integer in the target's byte order; the contract claims that
/// the result is the integer's bytes in one of the two orders, and leaves
/// unsaid which one, as that depends on the machine.
#[verifier::external_body]
pub(crate) fn native_bytes(v: u32) -> (b: [u8; 4])
    ensures
        is_native_encoding(b@, v),
{
    v.to_ne_bytes()
}

/// The pixel value whose bytes, most significant first, are alpha, red,
/// green and blue.
pub open spec fn argb_value(alpha: u8, red: u8, green: u8, blue: u8) -> int {
    alpha * 0x100_0000 + red * 0x1_0000 + green * 0x100 + blue
}

/// Packs four channels into one ARGB8888 pixel value, alpha in the most
/// significant byte and blue in the least.
pub fn argb8888(alpha: u8, red: u8, green: u8, blue: u8) -> (r: u32)
    ensures
        r == argb_value(alpha, red, green, blue),
        be_bytes(r) == seq![alpha, red, green, blue],
{
    let (a, rd, g, b) = (alpha as u32, red as u32, green as u32, blue as u32);
    let r = a * 0x100_0000 + rd * 0x1_0000 + g * 0x100 + b;
    assert(r / 0x100_0000 == a && (r / 0x1_0000) % 0x100 == rd && (r / 0x100) % 0x100 == g
        && r % 0x100 == b) by (bit_vector)
        requires
            a < 0x100,
            rd < 0x100,
            g < 0x100,
            b < 0x100,
            r == a * 0x100_0000 + rd * 0x1_0000 + g * 0x100 + b,
    ;
    assert(be_bytes(r) =~= seq![alpha, red, green, blue]);
    r
}

} // verus!
