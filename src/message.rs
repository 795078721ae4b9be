//! A whole captured packet: header window, then the ICMP message.
use crate::fields::map_option;
use crate::header::{header_of, slice_to_ipv4_header, IPv4Header};
use crate::icmp::{decode_icmp, icmp_of, IcmpMessage};
use vstd::prelude::*;

verus! {

/// A decoded packet. It holds copies of every field, nothing of the buffer.
#[derive(Debug, Clone, Copy, PartialEq, Eq)]
pub struct Message {
    pub header: IPv4Header,
    pub body: IcmpMessage,
}

/// Where the ICMP message starts: after the 24-byte window when the header
/// declares options, else after the 20-byte minimum header.
pub open spec fn icmp_start(d: Seq<u8>) -> int {
    if d[0] % 16 > 5 {
        24
    } else {
        20
    }
}

/// Whether a packet of bytes `d` decodes at all.
pub open spec fn decodes(d: Seq<u8>) -> bool {
    d.len() >= 24 && d.len() >= icmp_start(d) + 20
}

/// Whether `m` is what the packet `d` decodes to.
pub open spec fn message_of(m: Message, d: Seq<u8>) -> bool {
    &&& header_of(m.header, d.subrange(0, 24))
    &&& icmp_of(m.body, d.subrange(icmp_start(d), icmp_start(d) + 20))
}

/// Decodes a captured packet; `None` when it is too short for the header
/// window or for the ICMP message after it.
pub fn convert_data(data: &[u8]) -> (r: Option<Message>)
    ensures
        r is Some <==> decodes(data@),
        data@.len() < 24 ==> r is None,
        r matches Some(m) ==> message_of(m, data@),
{
    if data.len() < 24 {
        return None;
    }
    let mut header: [u8; 24] = [0; 24];
    let mut i: usize = 0;
    while i < 24
        invariant
            24 <= data@.len(),
            i <= 24,
            forall|j: int| 0 <= j < i ==> header@[j] == data@[j],
        decreases 24 - i,
    {
        header[i] = data[i];
        i = i + 1;
    }
    assert(header@ =~= data@.subrange(0, 24));
    let ipv4_header = slice_to_ipv4_header(&header);
    let start: usize = if ipv4_header.ihl > 5 {
        24
    } else {
        20
    };
    let rest = vstd::slice::slice_subrange(data, start, data.len());
    let body = match decode_icmp(rest) {
        Ok(m) => Some(m),
        Err(_) => None,
    };
    proof {
        if rest@.len() >= 20 {
            assert(rest@.subrange(0, 20) =~= data@.subrange(start as int, start + 20));
        }
    }
    let build = |out: IcmpMessage| -> (m: Message)
        ensures
            header_of(m.header, header@),
            m.body == out,
        { Message { header: slice_to_ipv4_header(&header), body: out } };
    map_option(body, build)
}

/// A packet shorter than the header window yields no message.
pub proof fn lemma_short_packet_rejected(d: Seq<u8>)
    requires
        d.len() < 24,
    ensures
        !decodes(d),
{
}

} // verus!
