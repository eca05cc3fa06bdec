//! Big-endian 32-bit integers.

use vstd::prelude::*;

verus! {

/// The four bytes of `value`, most significant first.
pub open spec fn be_bytes(value: u32) -> Seq<u8> {
    seq![
        (value / 0x100_0000) as u8,
        (value / 0x1_0000 % 0x100) as u8,
        (value / 0x100 % 0x100) as u8,
        (value % 0x100) as u8,
    ]
}

/// The number that four bytes stand for, most significant first.
pub open spec fn be_value(bytes: Seq<u8>) -> int {
    bytes[0] * 0x100_0000 + bytes[1] * 0x1_0000 + bytes[2] * 0x100 + bytes[3]
}

/// Splits a number into its four bytes, most significant first.
pub fn u32_to_be_bytes(value: u32) -> (bytes: [u8; 4])
    ensures
        bytes@ == be_bytes(value),
        bytes[0] * 0x100_0000 + bytes[1] * 0x1_0000 + bytes[2] * 0x100 + bytes[3] == value,
{
    [
        (value / 0x100_0000) as u8,
        (value / 0x1_0000 % 0x100) as u8,
        (value / 0x100 % 0x100) as u8,
        (value % 0x100) as u8,
    ]
}

/// Reads a number from its four bytes, most significant first.
pub fn u32_from_be_bytes(bytes: [u8; 4]) -> (value: u32)
    ensures
        value == be_value(bytes@),
        value == bytes[0] * 0x100_0000 + bytes[1] * 0x1_0000 + bytes[2] * 0x100 + bytes[3],
{
    bytes[0] as u32 * 0x100_0000 + bytes[1] as u32 * 0x1_0000 + bytes[2] as u32 * 0x100
        + bytes[3] as u32
}

/// Reading the bytes of a number gives the number back.
pub proof fn be_value_of_be_bytes(value: u32)
    ensures
        be_bytes(value).len() == 4,
        be_value(be_bytes(value)) == value,
{
}

/// Every four bytes are the bytes of exactly the number that they stand for.
pub proof fn be_bytes_of_be_value(bytes: Seq<u8>)
    requires
        bytes.len() == 4,
    ensures
        0 <= be_value(bytes) <= u32::MAX,
        be_bytes(be_value(bytes) as u32) == bytes,
{
    let value = be_value(bytes) as u32;
    assert(be_bytes(value) =~= bytes);
}

/// The bytes of a number are its digits in base 256, the first one with the greatest weight; they
/// stand for the number whose digits they are.
pub proof fn bytes_are_base_256_digits(value: u32, bytes: Seq<u8>)
    requires
        bytes.len() == 4,
    ensures
        ({
            let b = be_bytes(value);
            b[0] * 0x100_0000 + b[1] * 0x1_0000 + b[2] * 0x100 + b[3] == value
        }),
        be_value(bytes) == bytes[0] * 0x100_0000 + bytes[1] * 0x1_0000 + bytes[2] * 0x100
            + bytes[3],
{
}

/// A number is less than another where, at the first byte in which they differ, its byte is less.
pub proof fn bytes_order_as_numbers(a: u32, b: u32, k: int)
    requires
        0 <= k < 4,
        forall|i: int| 0 <= i < k ==> be_bytes(a)[i] == be_bytes(b)[i],
        be_bytes(a)[k] < be_bytes(b)[k],
    ensures
        a < b,
{
    bytes_are_base_256_digits(a, be_bytes(a));
    bytes_are_base_256_digits(b, be_bytes(b));
    let (x, y) = (be_bytes(a), be_bytes(b));
    assert(k > 0 ==> x[0] == y[0]);
    assert(k > 1 ==> x[1] == y[1]);
    assert(k > 2 ==> x[2] == y[2]);
}

} // verus!
