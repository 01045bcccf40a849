use vstd::prelude::*;

verus! {

/// The number that eight bytes stand for when the first byte is the least
/// significant one.
pub open spec fn u64_from_le(b: Seq<u8>) -> int
    recommends
        b.len() == 8,
{
    b[0] + 0x100 * b[1] + 0x1_0000 * b[2] + 0x100_0000 * b[3] + 0x1_0000_0000 * b[4]
        + 0x100_0000_0000 * b[5] + 0x1_0000_0000_0000 * b[6] + 0x100_0000_0000_0000 * b[7]
}

/// Byte `i` of the little-endian form of `x`.
pub open spec fn le_byte(x: u64, i: int) -> u8
    recommends
        0 <= i < 8,
{
    if i == 0 {
        (x % 0x100) as u8
    } else if i == 1 {
        (x / 0x100 % 0x100) as u8
    } else if i == 2 {
        (x / 0x1_0000 % 0x100) as u8
    } else if i == 3 {
        (x / 0x100_0000 % 0x100) as u8
    } else if i == 4 {
        (x / 0x1_0000_0000 % 0x100) as u8
    } else if i == 5 {
        (x / 0x100_0000_0000 % 0x100) as u8
    } else if i == 6 {
        (x / 0x1_0000_0000_0000 % 0x100) as u8
    } else {
        (x / 0x100_0000_0000_0000 % 0x100) as u8
    }
}

/// The eight bytes of `x`, least significant first.
pub open spec fn u64_to_le(x: u64) -> Seq<u8> {
    Seq::new(8, |i: int| le_byte(x, i))
}

/// Reading back what was written gives the number that was written.
pub proof fn lemma_u64_le_round_trip(x: u64)
    ensures
        u64_to_le(x).len() == 8,
        u64_from_le(u64_to_le(x)) == x,
{
    let d0 = (x % 0x100) as u64;
    let d1 = (x / 0x100 % 0x100) as u64;
    let d2 = (x / 0x1_0000 % 0x100) as u64;
    let d3 = (x / 0x100_0000 % 0x100) as u64;
    let d4 = (x / 0x1_0000_0000 % 0x100) as u64;
    let d5 = (x / 0x100_0000_0000 % 0x100) as u64;
    let d6 = (x / 0x1_0000_0000_0000 % 0x100) as u64;
    let d7 = (x / 0x100_0000_0000_0000 % 0x100) as u64;
    assert(d0 == x % 0x100 && d1 == x / 0x100 % 0x100 && d2 == x / 0x1_0000 % 0x100 && d3 == x
        / 0x100_0000 % 0x100 && d4 == x / 0x1_0000_0000 % 0x100 && d5 == x / 0x100_0000_0000
        % 0x100 && d6 == x / 0x1_0000_0000_0000 % 0x100 && d7 == x / 0x100_0000_0000_0000 % 0x100
        ==> d0 < 0x100 && d1 < 0x100 && d2 < 0x100 && d3 < 0x100 && d4 < 0x100 && d5 < 0x100 && d6
        < 0x100 && d7 < 0x100 && x == d0 + 0x100 * d1 + 0x1_0000 * d2 + 0x100_0000 * d3
        + 0x1_0000_0000 * d4 + 0x100_0000_0000 * d5 + 0x1_0000_0000_0000 * d6
        + 0x100_0000_0000_0000 * d7) by (bit_vector);
    let b = u64_to_le(x);
    assert(b[0] == d0 && b[1] == d1 && b[2] == d2 && b[3] == d3);
    assert(b[4] == d4 && b[5] == d5 && b[6] == d6 && b[7] == d7);
}

/// Writing what was read gives the bytes that were read.
pub proof fn lemma_u64_le_bytes_round_trip(b: Seq<u8>)
    requires
        b.len() == 8,
    ensures
        0 <= u64_from_le(b) <= u64::MAX,
        u64_to_le(u64_from_le(b) as u64) == b,
{
    let b0 = b[0] as u64;
    let b1 = b[1] as u64;
    let b2 = b[2] as u64;
    let b3 = b[3] as u64;
    let b4 = b[4] as u64;
    let b5 = b[5] as u64;
    let b6 = b[6] as u64;
    let b7 = b[7] as u64;
    let x = (b0 + 0x100 * b1 + 0x1_0000 * b2 + 0x100_0000 * b3 + 0x1_0000_0000 * b4
        + 0x100_0000_0000 * b5 + 0x1_0000_0000_0000 * b6 + 0x100_0000_0000_0000 * b7) as u64;
    assert(x == u64_from_le(b));
    assert(b0 < 0x100 && b1 < 0x100 && b2 < 0x100 && b3 < 0x100 && b4 < 0x100 && b5 < 0x100 && b6
        < 0x100 && b7 < 0x100 && x == b0 + 0x100 * b1 + 0x1_0000 * b2 + 0x100_0000 * b3
        + 0x1_0000_0000 * b4 + 0x100_0000_0000 * b5 + 0x1_0000_0000_0000 * b6
        + 0x100_0000_0000_0000 * b7 ==> x % 0x100 == b0 && x / 0x100 % 0x100 == b1 && x / 0x1_0000
        % 0x100 == b2 && x / 0x100_0000 % 0x100 == b3 && x / 0x1_0000_0000 % 0x100 == b4 && x
        / 0x100_0000_0000 % 0x100 == b5 && x / 0x1_0000_0000_0000 % 0x100 == b6 && x
        / 0x100_0000_0000_0000 % 0x100 == b7) by (bit_vector);
    assert forall|i: int| 0 <= i < 8 implies le_byte(x, i) == b[i] by {}
    assert(u64_to_le(x) =~= b);
}

/// Reads a number from eight bytes, least significant first.
pub fn read_u64_le(b: &[u8]) -> (x: u64)
    requires
        b@.len() == 8,
    ensures
        x == u64_from_le(b@),
{
    let b0 = b[0] as u64;
    let b1 = b[1] as u64;
    let b2 = b[2] as u64;
    let b3 = b[3] as u64;
    let b4 = b[4] as u64;
    let b5 = b[5] as u64;
    let b6 = b[6] as u64;
    let b7 = b[7] as u64;
    assert(b0 < 0x100 && b1 < 0x100 && b2 < 0x100 && b3 < 0x100 && b4 < 0x100 && b5 < 0x100 && b6
        < 0x100 && b7 < 0x100 ==> (b0 | b1 << 8 | b2 << 16 | b3 << 24 | b4 << 32 | b5 << 40 | b6
        << 48 | b7 << 56) == b0 + 0x100 * b1 + 0x1_0000 * b2 + 0x100_0000 * b3 + 0x1_0000_0000
        * b4 + 0x100_0000_0000 * b5 + 0x1_0000_0000_0000 * b6 + 0x100_0000_0000_0000 * b7)
        by (bit_vector);
    b0 | b1 << 8 | b2 << 16 | b3 << 24 | b4 << 32 | b5 << 40 | b6 << 48 | b7 << 56
}

/// Writes a number as eight bytes, least significant first.
pub fn write_u64_le(x: u64) -> (b: [u8; 8])
    ensures
        b@ == u64_to_le(x),
{
    assert((x & 0xff) == x % 0x100 && ((x >> 8) & 0xff) == x / 0x100 % 0x100 && ((x >> 16) & 0xff)
        == x / 0x1_0000 % 0x100 && ((x >> 24) & 0xff) == x / 0x100_0000 % 0x100) by (bit_vector);
    assert(((x >> 32) & 0xff) == x / 0x1_0000_0000 % 0x100 && ((x >> 40) & 0xff) == x
        / 0x100_0000_0000 % 0x100 && ((x >> 48) & 0xff) == x / 0x1_0000_0000_0000 % 0x100 && ((x
        >> 56) & 0xff) == x / 0x100_0000_0000_0000 % 0x100) by (bit_vector);
    let b: [u8; 8] = [
        (x & 0xff) as u8,
        ((x >> 8) & 0xff) as u8,
        ((x >> 16) & 0xff) as u8,
        ((x >> 24) & 0xff) as u8,
        ((x >> 32) & 0xff) as u8,
        ((x >> 40) & 0xff) as u8,
        ((x >> 48) & 0xff) as u8,
        ((x >> 56) & 0xff) as u8,
    ];
    assert(b@ =~= u64_to_le(x));
    b
}

} // verus!
