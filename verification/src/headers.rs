//! The three wire headers the engine walks, and one decoder for each.
//!
//! Each parser reads one header's span out of the frame through the
//! bounds-checked reads of `crate::buffer`: it returns `Some` exactly when
//! the whole span lies inside the buffer, and the decoded fields are stated
//! byte for byte against the frame. Multi-byte fields are converted to host
//! order at decode time, so callers compare them against plain constants.

use vstd::prelude::*;

use crate::buffer::be16;
use crate::buffer::be32;
use crate::buffer::lemma_swap16_reads_network_order;
use crate::buffer::lemma_swap32_reads_network_order;
use crate::buffer::read_u16;
use crate::buffer::read_u32;
use crate::buffer::read_u8;
use crate::buffer::word16_be;
use crate::buffer::word32_be;

verus! {

broadcast use lemma_swap16_reads_network_order, lemma_swap32_reads_network_order;

/// Length of an Ethernet header on the wire.
pub const ETHERNET_HEADER_LEN: usize = 14;

/// Length of an IPv4 header without options; the shortest the nibble can
/// legally encode.
pub const IPV4_MIN_HEADER_LEN: usize = 20;

/// Length of a UDP header on the wire.
pub const UDP_HEADER_LEN: usize = 8;

/// Ethertype of IPv4.
pub const ETHERTYPE_IPV4: u16 = 0x0800;

/// IP protocol number of UDP.
pub const IPPROTO_UDP: u8 = 17;

/// An Ethernet header: two MAC addresses and the ethertype, already converted
/// to host order.
pub struct EthernetHeader {
    pub dst: [u8; 6],
    pub src: [u8; 6],
    pub ethertype: u16,
}

/// An IPv4 header without its options. `version_ihl` keeps the raw
/// version/IHL byte; every multi-byte field is in host order.
pub struct Ipv4Header {
    pub version_ihl: u8,
    pub tos: u8,
    pub total_len: u16,
    pub ident: u16,
    pub frag_off: u16,
    pub ttl: u8,
    pub protocol: u8,
    pub checksum: u16,
    pub src_addr: u32,
    pub dst_addr: u32,
}

/// A UDP header; every field is in host order.
pub struct UdpHeader {
    pub src_port: u16,
    pub dest_port: u16,
    pub length: u16,
    pub checksum: u16,
}

impl Ipv4Header {
    /// The header's byte length as its IHL nibble (the low four bits of the
    /// first byte, counting 32-bit words) encodes it.
    pub open spec fn spec_ihl_bytes(&self) -> int {
        4 * (self.version_ihl % 16)
    }

    /// Header byte length from the IHL nibble; at most 60 (nibble 15).
    pub fn ihl_bytes(&self) -> (n: usize)
        ensures
            n == self.spec_ihl_bytes(),
            n <= 60,
    {
        let vi: u8 = self.version_ihl;
        let words: u8 = vi & 0x0f;
        proof {
            assert(vi & 0x0f == vi % 16) by (bit_vector);
        }
        4 * (words as usize)
    }
}

/// Decode the Ethernet header at the start of the frame. Succeeds exactly
/// when the frame holds its 14 bytes; the ethertype comes back in host order.
pub fn parse_ethernet(frame: &[u8]) -> (r: Option<EthernetHeader>)
    ensures
        r is Some <==> frame@.len() >= ETHERNET_HEADER_LEN,
        r matches Some(h) ==> {
            &&& h.dst@ == frame@.subrange(0, 6)
            &&& h.src@ == frame@.subrange(6, 12)
            &&& h.ethertype == word16_be(frame@[12], frame@[13])
        },
{
    if frame.len() < ETHERNET_HEADER_LEN {
        return None;
    }
    let mut dst: [u8; 6] = [0u8; 6];
    let mut src: [u8; 6] = [0u8; 6];
    let mut i: usize = 0;
    while i < 6
        invariant
            i <= 6,
            frame@.len() >= 14,
            dst@.len() == 6,
            src@.len() == 6,
            forall|j: int| 0 <= j < i ==> dst@[j] == frame@[j],
            forall|j: int| 0 <= j < i ==> src@[j] == frame@[j + 6],
        decreases 6 - i,
    {
        dst[i] = frame[i];
        src[i] = frame[i + 6];
        i = i + 1;
    }
    let ethertype = be16(read_u16(frame, 12)?);
    proof {
        assert(dst@ =~= frame@.subrange(0, 6));
        assert(src@ =~= frame@.subrange(6, 12));
    }
    Some(EthernetHeader { dst, src, ethertype })
}

/// Decode the IPv4 header at byte offset `off`. Succeeds exactly when the 20
/// option-less header bytes lie inside the frame; options, if the IHL nibble
/// announces any, are left in place and only counted by `ihl_bytes`.
pub fn parse_ipv4(frame: &[u8], off: usize) -> (r: Option<Ipv4Header>)
    ensures
        r is Some <==> off + IPV4_MIN_HEADER_LEN <= frame@.len(),
        r matches Some(h) ==> {
            &&& h.version_ihl == frame@[off as int]
            &&& h.tos == frame@[off + 1]
            &&& h.total_len == word16_be(frame@[off + 2], frame@[off + 3])
            &&& h.ident == word16_be(frame@[off + 4], frame@[off + 5])
            &&& h.frag_off == word16_be(frame@[off + 6], frame@[off + 7])
            &&& h.ttl == frame@[off + 8]
            &&& h.protocol == frame@[off + 9]
            &&& h.checksum == word16_be(frame@[off + 10], frame@[off + 11])
            &&& h.src_addr == word32_be(
                frame@[off + 12],
                frame@[off + 13],
                frame@[off + 14],
                frame@[off + 15],
            )
            &&& h.dst_addr == word32_be(
                frame@[off + 16],
                frame@[off + 17],
                frame@[off + 18],
                frame@[off + 19],
            )
        },
{
    if frame.len() < IPV4_MIN_HEADER_LEN || off > frame.len() - IPV4_MIN_HEADER_LEN {
        return None;
    }
    let version_ihl = read_u8(frame, off)?;
    let tos = read_u8(frame, off + 1)?;
    let total_len = be16(read_u16(frame, off + 2)?);
    let ident = be16(read_u16(frame, off + 4)?);
    let frag_off = be16(read_u16(frame, off + 6)?);
    let ttl = read_u8(frame, off + 8)?;
    let protocol = read_u8(frame, off + 9)?;
    let checksum = be16(read_u16(frame, off + 10)?);
    let src_addr = be32(read_u32(frame, off + 12)?);
    let dst_addr = be32(read_u32(frame, off + 16)?);
    Some(
        Ipv4Header {
            version_ihl,
            tos,
            total_len,
            ident,
            frag_off,
            ttl,
            protocol,
            checksum,
            src_addr,
            dst_addr,
        },
    )
}

/// Decode the UDP header at byte offset `off`. Succeeds exactly when its 8
/// bytes lie inside the frame; the ports come back in host order.
pub fn parse_udp(frame: &[u8], off: usize) -> (r: Option<UdpHeader>)
    ensures
        r is Some <==> off + UDP_HEADER_LEN <= frame@.len(),
        r matches Some(h) ==> {
            &&& h.src_port == word16_be(frame@[off as int], frame@[off + 1])
            &&& h.dest_port == word16_be(frame@[off + 2], frame@[off + 3])
            &&& h.length == word16_be(frame@[off + 4], frame@[off + 5])
            &&& h.checksum == word16_be(frame@[off + 6], frame@[off + 7])
        },
{
    if frame.len() < UDP_HEADER_LEN || off > frame.len() - UDP_HEADER_LEN {
        return None;
    }
    let src_port = be16(read_u16(frame, off)?);
    let dest_port = be16(read_u16(frame, off + 2)?);
    let length = be16(read_u16(frame, off + 4)?);
    let checksum = be16(read_u16(frame, off + 6)?);
    Some(UdpHeader { src_port, dest_port, length, checksum })
}

} // verus!
