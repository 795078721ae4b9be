//! The IPv4 header, read from a fixed 24-byte window.
use crate::fields::be16;
use vstd::prelude::*;

verus! {

/// The fields of an IPv4 header. At most one 4-byte options block is kept.
#[derive(Debug, Clone, Copy, PartialEq, Eq)]
pub struct IPv4Header {
    pub version: u8,
    pub ihl: u8,
    pub dscp: u8,
    pub ecn: u8,
    pub length: u16,
    pub id: u16,
    pub flags: u8,
    pub offset: u16,
    pub ttl: u8,
    pub protocol: u8,
    pub checksum: u16,
    pub source: [u8; 4],
    pub destination: [u8; 4],
    pub options: Option<[u8; 4]>,
}

/// Whether `h` is what the 24-byte window `w` decodes to: each field is read at
/// its bit position, and an options block is present iff the header length
/// exceeds five words.
pub open spec fn header_of(h: IPv4Header, w: Seq<u8>) -> bool {
    &&& w.len() == 24
    &&& h.version == w[0] / 16
    &&& h.ihl == w[0] % 16
    &&& h.dscp == w[1] / 4
    &&& h.ecn == w[1] % 4
    &&& h.length == be16(w[2], w[3])
    &&& h.id == be16(w[4], w[5])
    &&& h.flags == w[6] / 32
    &&& h.offset == (w[6] % 32) * 256 + w[7]
    &&& h.ttl == w[8]
    &&& h.protocol == w[9]
    &&& h.checksum == be16(w[10], w[11])
    &&& h.source@ == w.subrange(12, 16)
    &&& h.destination@ == w.subrange(16, 20)
    &&& if w[0] % 16 <= 5 {
        h.options is None
    } else {
        h.options matches Some(o) && o@ == w.subrange(20, 24)
    }
}

/// Decodes the header held in the first 24 bytes of a packet.
pub fn slice_to_ipv4_header(slice: &[u8; 24]) -> (r: IPv4Header)
    ensures
        header_of(r, slice@),
{
    let ihl = slice[0] % 16;
    let options = if ihl <= 5 {
        None
    } else {
        let o = [slice[20], slice[21], slice[22], slice[23]];
        assert(o@ =~= slice@.subrange(20, 24));
        Some(o)
    };
    let source = [slice[12], slice[13], slice[14], slice[15]];
    let destination = [slice[16], slice[17], slice[18], slice[19]];
    assert(source@ =~= slice@.subrange(12, 16));
    assert(destination@ =~= slice@.subrange(16, 20));
    IPv4Header {
        version: slice[0] / 16,
        ihl,
        dscp: slice[1] / 4,
        ecn: slice[1] % 4,
        length: (slice[2] as u16) * 256 + slice[3] as u16,
        id: (slice[4] as u16) * 256 + slice[5] as u16,
        flags: slice[6] / 32,
        offset: ((slice[6] % 32) as u16) * 256 + slice[7] as u16,
        ttl: slice[8],
        protocol: slice[9],
        checksum: (slice[10] as u16) * 256 + slice[11] as u16,
        source,
        destination,
        options,
    }
}

/// A header length of five words gives no options block; one of six gives the
/// four bytes that follow the fixed part of the window.
pub proof fn lemma_options_follow_ihl(w: Seq<u8>, h: IPv4Header)
    requires
        header_of(h, w),
    ensures
        w[0] % 16 == 5 ==> h.options is None,
        w[0] % 16 == 6 ==> (h.options matches Some(o) && o@ == w.subrange(20, 24)),
{
}

/// Decoding has no hidden state: two headers decoded from the same window are
/// equal.
pub proof fn lemma_header_deterministic(w: Seq<u8>, h1: IPv4Header, h2: IPv4Header)
    requires
        header_of(h1, w),
        header_of(h2, w),
    ensures
        h1 == h2,
{
    assert(h1.source == h2.source);
    assert(h1.destination == h2.destination);
    if w[0] % 16 > 5 {
        assert(h1.options->0 == h2.options->0);
    }
}

} // verus!
