//! Integers on the wire: every multi-byte value travels least significant
//! byte first, signed values in two's complement.

use vstd::prelude::*;

verus! {

/// The flag at place `n` of sixteen, counted from the least significant bit.
pub open spec fn bit_of(n: int) -> u16
    recommends
        0 <= n < 16,
{
    1u16 << n
}

/// The flag at place `n` is two to the power of `n`.
pub proof fn bit_values()
    by (bit_vector)
    ensures
        bit_of(0) == 0x0001u16,
        bit_of(1) == 0x0002u16,
        bit_of(2) == 0x0004u16,
        bit_of(3) == 0x0008u16,
        bit_of(4) == 0x0010u16,
        bit_of(5) == 0x0020u16,
        bit_of(6) == 0x0040u16,
        bit_of(7) == 0x0080u16,
        bit_of(8) == 0x0100u16,
        bit_of(9) == 0x0200u16,
        bit_of(10) == 0x0400u16,
        bit_of(11) == 0x0800u16,
        bit_of(12) == 0x1000u16,
        bit_of(13) == 0x2000u16,
        bit_of(14) == 0x4000u16,
        bit_of(15) == 0x8000u16,
{
}

/// Whether `flags` has the bit at place `n`.
pub open spec fn has_bit(flags: u16, n: int) -> bool
    recommends
        0 <= n < 16,
{
    flags & bit_of(n) != 0
}

/// Whether `flags` has the bit at place `n`.
pub fn flag_is_set(flags: u16, n: u8) -> (b: bool)
    requires
        n < 16,
    ensures
        b == has_bit(flags, n as int),
{
    (flags & (1u16 << n)) != 0
}

/// The number that two bytes hold, least significant first.
pub open spec fn le16(b0: u8, b1: u8) -> int {
    b0 as int + 0x100 * (b1 as int)
}

/// The number that four bytes hold, least significant first.
pub open spec fn le32(b0: u8, b1: u8, b2: u8, b3: u8) -> int {
    b0 as int + 0x100 * (b1 as int) + 0x1_0000 * (b2 as int) + 0x100_0000 * (b3 as int)
}

/// What `n`, read from `bits` bits, means in two's complement.
pub open spec fn signed(n: int, bits: nat) -> int
    recommends
        bits == 8 || bits == 16 || bits == 32,
{
    let half: int = if bits == 8 {
        0x80
    } else if bits == 16 {
        0x8000
    } else {
        0x8000_0000
    };
    if n < half {
        n
    } else {
        n - 2 * half
    }
}

/// Byte `k` of `n`, counted from the least significant; for a negative `n`
/// the byte of its two's complement.
pub open spec fn byte_of(n: int, k: int) -> u8
    recommends
        0 <= k < 4,
{
    let unit: int = if k == 0 {
        1
    } else if k == 1 {
        0x100
    } else if k == 2 {
        0x1_0000
    } else {
        0x100_0000
    };
    ((n / unit) % 0x100) as u8
}

/// The `width` bytes of `n`, least significant first.
pub open spec fn le_bytes(n: int, width: nat) -> Seq<u8>
    recommends
        width <= 4,
{
    Seq::new(width, |k: int| byte_of(n, k))
}

/// Reads an unsigned 16-bit value.
pub fn u16_from_le(b0: u8, b1: u8) -> (r: u16)
    ensures
        r == le16(b0, b1),
{
    let r: u16 = (b0 as u16) | ((b1 as u16) << 8);
    assert(((b0 as u16) | ((b1 as u16) << 8)) == b0 as u16 + 0x100 * (b1 as u16)) by (bit_vector);
    r
}

/// Reads a signed 16-bit value.
pub fn i16_from_le(b0: u8, b1: u8) -> (r: i16)
    ensures
        r == signed(le16(b0, b1), 16),
{
    let u: u16 = u16_from_le(b0, b1);
    assert(u < 0x8000 ==> u as i16 == u) by (bit_vector);
    assert(u >= 0x8000 ==> u as i16 == u - 0x1_0000) by (bit_vector);
    u as i16
}

/// Reads an unsigned 32-bit value.
pub fn u32_from_le(b0: u8, b1: u8, b2: u8, b3: u8) -> (r: u32)
    ensures
        r == le32(b0, b1, b2, b3),
{
    let r: u32 = (b0 as u32) | ((b1 as u32) << 8) | ((b2 as u32) << 16) | ((b3 as u32) << 24);
    assert(((b0 as u32) | ((b1 as u32) << 8) | ((b2 as u32) << 16) | ((b3 as u32) << 24)) == b0 as u32
        + 0x100 * (b1 as u32) + 0x1_0000 * (b2 as u32) + 0x100_0000 * (b3 as u32))
        by (bit_vector);
    r
}

/// Reads a signed byte.
pub fn i8_from_byte(b: u8) -> (r: i8)
    ensures
        r == signed(b as int, 8),
{
    assert(b < 0x80 ==> b as i8 == b) by (bit_vector);
    assert(b >= 0x80 ==> b as i8 == b - 0x100) by (bit_vector);
    b as i8
}

/// The unsigned 16-bit value in the two bytes of `s` from `at` on.
pub open spec fn u16_at(s: Seq<u8>, at: int) -> u16
    recommends
        0 <= at,
        at + 2 <= s.len(),
{
    le16(s[at], s[at + 1]) as u16
}

/// The signed 16-bit value in the two bytes of `s` from `at` on.
pub open spec fn i16_at(s: Seq<u8>, at: int) -> i16
    recommends
        0 <= at,
        at + 2 <= s.len(),
{
    signed(le16(s[at], s[at + 1]), 16) as i16
}

/// The unsigned 32-bit value in the four bytes of `s` from `at` on.
pub open spec fn u32_at(s: Seq<u8>, at: int) -> u32
    recommends
        0 <= at,
        at + 4 <= s.len(),
{
    le32(s[at], s[at + 1], s[at + 2], s[at + 3]) as u32
}

/// Reads the unsigned 16-bit value at `at`.
pub fn read_u16(v: &[u8], at: usize) -> (r: u16)
    requires
        at + 2 <= v.len(),
    ensures
        r == u16_at(v@, at as int),
{
    u16_from_le(v[at], v[at + 1])
}

/// Reads the signed 16-bit value at `at`.
pub fn read_i16(v: &[u8], at: usize) -> (r: i16)
    requires
        at + 2 <= v.len(),
    ensures
        r == i16_at(v@, at as int),
{
    i16_from_le(v[at], v[at + 1])
}

/// Reads the unsigned 32-bit value at `at`.
pub fn read_u32(v: &[u8], at: usize) -> (r: u32)
    requires
        at + 4 <= v.len(),
    ensures
        r == u32_at(v@, at as int),
{
    u32_from_le(v[at], v[at + 1], v[at + 2], v[at + 3])
}

/// Appends the first `width` bytes of `x`, least significant first.
pub fn push_le(out: &mut Vec<u8>, x: u32, width: usize)
    requires
        1 <= width <= 4,
    ensures
        final(out)@ == old(out)@ + le_bytes(x as int, width as nat),
{
    let b0: u8 = (x & 0xff) as u8;
    let b1: u8 = ((x >> 8) & 0xff) as u8;
    let b2: u8 = ((x >> 16) & 0xff) as u8;
    let b3: u8 = ((x >> 24) & 0xff) as u8;
    assert((x & 0xff) as u8 == x % 0x100 && ((x >> 8) & 0xff) as u8 == (x / 0x100) % 0x100 && ((x >> 16)
        & 0xff) as u8 == (x / 0x1_0000) % 0x100 && ((x >> 24) & 0xff) as u8 == (x / 0x100_0000)
        % 0x100) by (bit_vector);
    out.push(b0);
    if width > 1 {
        out.push(b1);
    }
    if width > 2 {
        out.push(b2);
    }
    if width > 3 {
        out.push(b3);
    }
    assert(out@ =~= old(out)@ + le_bytes(x as int, width as nat));
}

proof fn lemma_byte_of_wraps(x: int, k: int)
    requires
        0 <= k < 4,
    ensures
        byte_of(x + 0x1_0000_0000, k) == byte_of(x, k),
{
    if k == 0 {
        assert((x + 0x1_0000_0000) % 0x100 == x % 0x100);
    } else if k == 1 {
        assert((x + 0x1_0000_0000) / 0x100 == x / 0x100 + 0x100_0000);
        assert((x / 0x100 + 0x100_0000) % 0x100 == (x / 0x100) % 0x100);
    } else if k == 2 {
        assert((x + 0x1_0000_0000) / 0x1_0000 == x / 0x1_0000 + 0x1_0000);
        assert((x / 0x1_0000 + 0x1_0000) % 0x100 == (x / 0x1_0000) % 0x100);
    } else {
        assert((x + 0x1_0000_0000) / 0x100_0000 == x / 0x100_0000 + 0x100);
        assert((x / 0x100_0000 + 0x100) % 0x100 == (x / 0x100_0000) % 0x100);
    }
}

/// Appends the first `width` bytes of the two's complement of `x`, least
/// significant first.
pub fn push_le_signed(out: &mut Vec<u8>, x: i32, width: usize)
    requires
        1 <= width <= 4,
    ensures
        final(out)@ == old(out)@ + le_bytes(x as int, width as nat),
{
    let u: u32 = x as u32;
    assert(x >= 0 ==> x as u32 == x) by (bit_vector);
    assert(x < 0 ==> x as u32 == x + 0x1_0000_0000) by (bit_vector);
    assert(le_bytes(u as int, width as nat) =~= le_bytes(x as int, width as nat)) by {
        assert forall|k: int| 0 <= k < width implies #[trigger] byte_of(u as int, k) == byte_of(
            x as int,
            k,
        ) by {
            if x < 0 {
                lemma_byte_of_wraps(x as int, k);
            }
        }
    }
    push_le(out, u, width);
}

/// Bytes that were written are read back as the number that was written,
/// unsigned: in one byte, in two and in four.
pub proof fn unsigned_reads_back(n: int)
    requires
        0 <= n,
    ensures
        n < 0x100 ==> byte_of(n, 0) == n,
        n < 0x1_0000 ==> le16(byte_of(n, 0), byte_of(n, 1)) == n,
        n < 0x1_0000_0000 ==> le32(byte_of(n, 0), byte_of(n, 1), byte_of(n, 2), byte_of(n, 3)) == n,
{
    if n < 0x1_0000_0000 {
        let b0 = n % 0x100;
        let b1 = (n / 0x100) % 0x100;
        let b2 = (n / 0x1_0000) % 0x100;
        let b3 = (n / 0x100_0000) % 0x100;
        assert(n == b0 + 0x100 * (n / 0x100));
        assert(n / 0x100 == b1 + 0x100 * (n / 0x1_0000));
        assert(n / 0x1_0000 == b2 + 0x100 * (n / 0x100_0000));
        assert(n / 0x100_0000 == b3);
    }
}

/// Bytes that were written are read back as the number that was written,
/// signed: in one byte and in two.
pub proof fn signed_reads_back(n: int)
    requires
        -0x8000 <= n < 0x8000,
    ensures
        -0x80 <= n < 0x80 ==> signed(byte_of(n, 0) as int, 8) == n,
        signed(le16(byte_of(n, 0), byte_of(n, 1)), 16) == n,
{
    let b0 = n % 0x100;
    let b1 = (n / 0x100) % 0x100;
    assert(n == b0 + 0x100 * (n / 0x100));
    if n >= 0 {
        assert(n / 0x100 == b1);
    } else {
        assert(n / 0x100 == b1 - 0x100);
    }
}

} // verus!
