//! The checksum of the configuration: a 16-bit cyclic redundancy check with
//! the polynomial 0x1021, started at 0xFFFF, bytes taken in order and bits
//! from the most significant down, with nothing reflected and nothing added
//! at the end.

use vstd::prelude::*;

verus! {

/// The generator polynomial, without its leading term.
pub const POLYNOMIAL: u16 = 0x1021;

/// The value of the register before the first byte.
pub const START: u16 = 0xFFFF;

/// The register after one bit has been shifted out: shifted left by one,
/// and changed by the polynomial where the bit that left was set.
pub open spec fn shifted(crc: u16) -> u16 {
    if crc & 0x8000 != 0 {
        (crc << 1) ^ POLYNOMIAL
    } else {
        crc << 1
    }
}

/// The register after `n` bits have been shifted out.
pub open spec fn shifted_by(crc: u16, n: nat) -> u16
    decreases n,
{
    if n == 0 {
        crc
    } else {
        shifted(shifted_by(crc, (n - 1) as nat))
    }
}

/// The register after a byte has been taken in: the byte changes the
/// upper half of the register, then its eight bits are shifted out.
pub open spec fn with_byte(crc: u16, byte: u8) -> u16 {
    shifted_by(crc ^ ((byte as u16) << 8), 8)
}

/// The register after the bytes of `data` have been taken in, in order,
/// starting from `crc`.
pub open spec fn with_bytes(crc: u16, data: Seq<u8>) -> u16
    decreases data.len(),
{
    if data.len() == 0 {
        crc
    } else {
        with_byte(with_bytes(crc, data.drop_last()), data.last())
    }
}

/// The checksum of `data`.
pub open spec fn crc16(data: Seq<u8>) -> u16 {
    with_bytes(START, data)
}

/// Takes one byte into the register.
pub fn update(crc: u16, byte: u8) -> (r: u16)
    ensures
        r == with_byte(crc, byte),
{
    let mut r: u16 = crc ^ ((byte as u16) << 8);
    let mut bit: u8 = 0;
    while bit < 8
        invariant
            bit <= 8,
            r == shifted_by(crc ^ ((byte as u16) << 8), bit as nat),
        decreases 8 - bit,
    {
        if r & 0x8000 != 0 {
            r = (r << 1) ^ POLYNOMIAL;
        } else {
            r = r << 1;
        }
        bit = bit + 1;
    }
    r
}

/// The checksum of the configuration data.
pub fn calculate_checksum(config_data: &[u8]) -> (crc: u16)
    ensures
        crc == crc16(config_data@),
{
    let mut crc: u16 = START;
    let mut i: usize = 0;
    while i < config_data.len()
        invariant
            i <= config_data@.len(),
            crc == with_bytes(START, config_data@.take(i as int)),
        decreases config_data@.len() - i,
    {
        assert(config_data@.take(i as int + 1).drop_last() == config_data@.take(i as int));
        crc = update(crc, config_data[i]);
        i = i + 1;
    }
    assert(config_data@.take(i as int) == config_data@);
    crc
}

/// The checksum can be taken in pieces: the register after `a` is where
/// the bytes of `b` go on.
pub proof fn checksum_goes_on(crc: u16, a: Seq<u8>, b: Seq<u8>)
    ensures
        with_bytes(crc, a + b) == with_bytes(with_bytes(crc, a), b),
    decreases b.len(),
{
    if b.len() == 0 {
        assert(a + b == a);
    } else {
        assert((a + b).drop_last() == a + b.drop_last());
        checksum_goes_on(crc, a, b.drop_last());
    }
}

} // verus!
