use vstd::prelude::*;
use crate::error::SdCardError;

verus! {

/// The 32-bit value of four bytes read most significant first.
pub open spec fn be_word(b: Seq<u8>) -> u32
    recommends
        b.len() == 4,
{
    (b[0] as int * 0x1000000 + b[1] as int * 0x10000 + b[2] as int * 0x100 + b[3] as int) as u32
}

/// Assembles the four bytes that trail an R7 or R3 response.
pub fn trailing_word(bytes: &Vec<u8>) -> (r: u32)
    requires
        bytes@.len() == 4,
    ensures
        r == be_word(bytes@),
{
    let d0 = bytes[0] as u32;
    let d1 = bytes[1] as u32;
    let d2 = bytes[2] as u32;
    let d3 = bytes[3] as u32;
    assert((d0 << 24) | (d1 << 16) | (d2 << 8) | d3 == d0 * 0x1000000 + d1 * 0x10000 + d2 * 0x100
        + d3) by (bit_vector)
        requires
            d0 < 256,
            d1 < 256,
            d2 < 256,
            d3 < 256,
    ;
    (d0 << 24) | (d1 << 16) | (d2 << 8) | d3
}

/// The check pattern that SEND_IF_COND carries and a compliant card echoes.
pub const IF_COND_PATTERN: u32 = 0x1aa;

/// Whether the low twelve bits of an R7 trailer echo the SEND_IF_COND pattern.
pub open spec fn spec_if_cond_echoed(word: u32) -> bool {
    word % 0x1000 == IF_COND_PATTERN
}

pub fn if_cond_echoed(word: u32) -> (r: bool)
    ensures
        r == spec_if_cond_echoed(word),
{
    assert(word & 0xfff == word % 0x1000) by (bit_vector);
    word & 0xfff == IF_COND_PATTERN
}

/// Whether the CCS bit (bit 30) of the OCR is set: the card is block addressed.
pub open spec fn spec_block_addressed(ocr: u32) -> bool {
    (ocr / 0x40000000) % 2 == 1
}

pub fn block_addressed(ocr: u32) -> (r: bool)
    ensures
        r == spec_block_addressed(ocr),
{
    assert((ocr >> 30) & 1 == (ocr / 0x40000000) % 2) by (bit_vector);
    (ocr >> 30) & 1 == 1
}

/// Whether a byte read while waiting for data is the start token: any byte
/// whose two low bits are not both set.
pub open spec fn spec_is_start_token(b: u8) -> bool {
    b % 4 != 3
}

pub fn is_start_token(b: u8) -> (r: bool)
    ensures
        r == spec_is_start_token(b),
{
    assert(b & 3 == b % 4) by (bit_vector);
    b & 0b11 != 0b11
}

/// The data-response token of a written block: the low five bits of the byte.
pub open spec fn spec_write_status(response: u8) -> Result<(), SdCardError> {
    let status = response % 32;
    if status == 0b00101 {
        Ok(())
    } else if status == 0b01011 {
        Err(SdCardError::CrcError)
    } else if status == 0b01101 {
        Err(SdCardError::WriteError)
    } else {
        Err(SdCardError::Unknown)
    }
}

/// Classifies the card's answer to a written block: accepted, CRC error,
/// write error, or a pattern outside the known set.
pub fn write_status(response: u8) -> (r: Result<(), SdCardError>)
    ensures
        r == spec_write_status(response),
{
    assert(response & 0x1f == response % 32) by (bit_vector);
    let status = response & 0x1f;
    if status == 0b00101 {
        Ok(())
    } else if status == 0b01011 {
        Err(SdCardError::CrcError)
    } else if status == 0b01101 {
        Err(SdCardError::WriteError)
    } else {
        Err(SdCardError::Unknown)
    }
}

/// The length of what SEND_CSD transfers: the 16-byte register and its CRC.
pub const CSD_TRANSFER_LEN: usize = 18;

/// The CSD_STRUCTURE field: the two high bits of the register's first byte.
pub open spec fn csd_structure(csd: Seq<u8>) -> int {
    csd[0] as int / 64
}

/// The 22-bit C_SIZE field of a version 2 CSD: six bits of byte 7, byte 8
/// and byte 9.
pub open spec fn c_size(csd: Seq<u8>) -> int {
    (csd[7] as int % 64) * 0x10000 + csd[8] as int * 0x100 + csd[9] as int
}

/// The capacity in blocks that a CSD states, where its layout is version 2.
pub open spec fn spec_csd_block_count(csd: Seq<u8>) -> Result<u32, SdCardError> {
    if csd_structure(csd) == 1 {
        Ok(((c_size(csd) + 1) * 1000) as u32)
    } else {
        Err(SdCardError::ReadCsdFailed)
    }
}

/// Reads the capacity out of a CSD register: `(C_SIZE + 1) * 1000` blocks.
/// A register of another layout than version 2 is refused.
pub fn csd_block_count(csd: &Vec<u8>) -> (r: Result<u32, SdCardError>)
    requires
        csd@.len() >= 10,
    ensures
        r == spec_csd_block_count(csd@),
        r is Ok ==> r->Ok_0 as int == (c_size(csd@) + 1) * 1000,
{
    let b0 = csd[0];
    let b7 = csd[7];
    let b8 = csd[8];
    let b9 = csd[9];
    assert(b0 >> 6 == b0 / 64) by (bit_vector);
    if b0 >> 6 != 1 {
        return Err(SdCardError::ReadCsdFailed);
    }
    assert(b7 & 0x3f == b7 % 64) by (bit_vector);
    let c: u32 = ((b7 & 0x3f) as u32) * 0x10000 + (b8 as u32) * 0x100 + b9 as u32;
    assert(c + 1 <= 0x400000);
    Ok((c + 1) * 1000)
}

} // verus!
