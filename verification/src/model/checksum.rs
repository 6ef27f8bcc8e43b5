//! The CRC-16/MODBUS checksum that closes every frame.
use vstd::prelude::*;
use crc::{Crc, CRC_16_MODBUS};

verus! {

/// The CRC-16/MODBUS checksum of `bytes` (width 16, reflected polynomial
/// 0x8005, initial value 0xffff, no final xor), as the `crc` crate computes it.
pub uninterp spec fn modbus_crc(bytes: Seq<u8>) -> u16;

/// `crc::Crc::<u16>::checksum` with the `CRC_16_MODBUS` algorithm. The
/// contract only says that the result is the checksum of exactly these bytes:
/// the same bytes always give the same checksum; what the value is, is left
/// to the crate.
#[verifier::external_body]
pub(crate) fn modbus_checksum(bytes: &[u8]) -> (r: u16)
    ensures
        r == modbus_crc(bytes@),
{
    Crc::<u16>::new(&CRC_16_MODBUS).checksum(bytes)
}

/// The checksum that closes a frame: CRC-16/MODBUS of `bytes`.
pub fn checksum(bytes: &[u8]) -> (r: u16)
    ensures
        r == modbus_crc(bytes@),
{
    modbus_checksum(bytes)
}

} // verus!
