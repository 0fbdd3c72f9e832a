//! Little-endian numbers in clipboard data.

use vstd::prelude::*;

verus! {

/// The unsigned number in the four bytes of `d` from `at` on, low byte first.
pub open spec fn le32(d: Seq<u8>, at: int) -> int {
    d[at] + 0x100 * d[at + 1] + 0x1_0000 * d[at + 2] + 0x100_0000 * d[at + 3]
}

/// The magnitude of the signed number in the four bytes of `d` from `at` on.
pub open spec fn magnitude32(d: Seq<u8>, at: int) -> int {
    let u = le32(d, at);
    if u < 0x8000_0000 {
        u
    } else {
        0x1_0000_0000 - u
    }
}

/// The four bytes of `n`, low byte first.
pub open spec fn le32_bytes(n: int) -> Seq<u8> {
    seq![
        (n % 0x100) as u8,
        (n / 0x100 % 0x100) as u8,
        (n / 0x1_0000 % 0x100) as u8,
        (n / 0x100_0000 % 0x100) as u8,
    ]
}

/// The unsigned number in the four bytes of `d` from `at` on.
pub fn read_le32(d: &[u8], at: usize) -> (r: u32)
    requires
        at + 4 <= d@.len(),
    ensures
        r == le32(d@, at as int),
{
    let a: u32 = d[at] as u32;
    let b: u32 = d[at + 1] as u32;
    let c: u32 = d[at + 2] as u32;
    let e: u32 = d[at + 3] as u32;
    a + 0x100 * b + 0x1_0000 * c + 0x100_0000 * e
}

/// The magnitude of the signed number in the four bytes of `d` from `at` on.
pub fn read_magnitude32(d: &[u8], at: usize) -> (r: u32)
    requires
        at + 4 <= d@.len(),
    ensures
        r == magnitude32(d@, at as int),
{
    let u: u32 = read_le32(d, at);
    if u < 0x8000_0000 {
        u
    } else {
        (0x1_0000_0000 - u as u64) as u32
    }
}

} // verus!
