//! The ICMP message that follows the IPv4 header.
use crate::fields::{be16, read_array_4, read_u16_be, read_u8, ParseError};
use vstd::prelude::*;

verus! {


/// An ICMP message with a fixed sample of three 4-byte data words.
#[derive(Debug, Clone, Copy, PartialEq, Eq)]
pub struct IcmpMessage {
    pub icmp_type: u8,
    pub icmp_code: u8,
    pub checksum: u16,
    pub header_content: [u8; 4],
    pub data1: [u8; 4],
    pub data2: [u8; 4],
    pub data3: [u8; 4],
}

/// Whether `m` is what the 20 bytes `b` decode to, read in order.
pub open spec fn icmp_of(m: IcmpMessage, b: Seq<u8>) -> bool {
    &&& b.len() == 20
    &&& m.icmp_type == b[0]
    &&& m.icmp_code == b[1]
    &&& m.checksum == be16(b[2], b[3])
    &&& m.header_content@ == b.subrange(4, 8)
    &&& m.data1@ == b.subrange(8, 12)
    &&& m.data2@ == b.subrange(12, 16)
    &&& m.data3@ == b.subrange(16, 20)
}

/// Decodes the ICMP message at the start of `bytes`; fails when fewer than
/// twenty bytes are there.
pub fn decode_icmp(bytes: &[u8]) -> (r: Result<IcmpMessage, ParseError>)
    ensures
        bytes@.len() < 20 <==> r is Err,
        r matches Err(e) ==> e == ParseError::InsufficientData,
        r matches Ok(m) ==> icmp_of(m, bytes@.subrange(0, 20)),
{
    let (icmp_type, pos) = match read_u8(bytes, 0) {
        Ok(v) => v,
        Err(e) => return Err(e),
    };
    let (icmp_code, pos) = match read_u8(bytes, pos) {
        Ok(v) => v,
        Err(e) => return Err(e),
    };
    let (checksum, pos) = match read_u16_be(bytes, pos) {
        Ok(v) => v,
        Err(e) => return Err(e),
    };
    let (header_content, pos) = match read_array_4(bytes, pos) {
        Ok(v) => v,
        Err(e) => return Err(e),
    };
    let (data1, pos) = match read_array_4(bytes, pos) {
        Ok(v) => v,
        Err(e) => return Err(e),
    };
    let (data2, pos) = match read_array_4(bytes, pos) {
        Ok(v) => v,
        Err(e) => return Err(e),
    };
    let (data3, _pos) = match read_array_4(bytes, pos) {
        Ok(v) => v,
        Err(e) => return Err(e),
    };
    let m = IcmpMessage { icmp_type, icmp_code, checksum, header_content, data1, data2, data3 };
    assert(bytes@.subrange(0, 20).subrange(4, 8) =~= bytes@.subrange(4, 8));
    assert(bytes@.subrange(0, 20).subrange(8, 12) =~= bytes@.subrange(8, 12));
    assert(bytes@.subrange(0, 20).subrange(12, 16) =~= bytes@.subrange(12, 16));
    assert(bytes@.subrange(0, 20).subrange(16, 20) =~= bytes@.subrange(16, 20));
    Ok(m)
}

} // verus!
