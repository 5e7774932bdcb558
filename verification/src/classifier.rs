//! The decision engine: chain the three parsers over one frame and map the
//! extracted fields to a verdict.
//!
//! `classify_spec` is the whole observable behaviour, stated over the frame's
//! bytes alone: a frame is dropped exactly when it carries an IPv4 ethertype,
//! the IP protocol is UDP, the UDP header fits inside the buffer at the
//! offset the IHL nibble computes, and its destination port is 53. Every
//! other frame — truncated at any stage, foreign ethertype, other transport,
//! other port — passes (fail-open). The executable `classify` returns exactly
//! that verdict, and `try_classify` additionally tells a host apart whether
//! the chain ran out of bytes or finished.

use vstd::prelude::*;

use crate::buffer::word16_be;
use crate::headers::parse_ethernet;
use crate::headers::parse_ipv4;
use crate::headers::parse_udp;
use crate::headers::ETHERNET_HEADER_LEN;
use crate::headers::ETHERTYPE_IPV4;
use crate::headers::IPPROTO_UDP;
use crate::headers::IPV4_MIN_HEADER_LEN;
use crate::headers::UDP_HEADER_LEN;

verus! {

/// Destination port of DNS, the one flow the policy drops.
pub const DNS_PORT: u16 = 53;

/// The engine's sole output. There is no error variant: a frame the chain
/// cannot parse passes.
#[derive(Clone, Copy, Debug, PartialEq, Eq, Structural)]
pub enum Verdict {
    Pass,
    Drop,
}

/// The frame's ethertype in host order (wire bytes 12 and 13, big-endian).
pub open spec fn spec_ethertype(b: Seq<u8>) -> u16 {
    word16_be(b[12], b[13])
}

/// The IP protocol number: the tenth byte of the IPv4 header.
pub open spec fn spec_protocol(b: Seq<u8>) -> u8 {
    b[ETHERNET_HEADER_LEN + 9]
}

/// The IPv4 header's byte length as its IHL nibble encodes it.
pub open spec fn spec_ihl_bytes(b: Seq<u8>) -> int {
    4 * (b[ETHERNET_HEADER_LEN as int] % 16)
}

/// The byte offset of the UDP header: the Ethernet header plus however long
/// the IPv4 header declares itself.
pub open spec fn spec_udp_offset(b: Seq<u8>) -> int {
    ETHERNET_HEADER_LEN + spec_ihl_bytes(b)
}

/// The UDP destination port in host order.
pub open spec fn spec_udp_dest_port(b: Seq<u8>) -> u16 {
    word16_be(b[spec_udp_offset(b) + 2], b[spec_udp_offset(b) + 3])
}

/// The verdict for a frame, stated over its bytes alone. Each arm mirrors one
/// early exit of the parse chain; only a frame that survives every check is
/// dropped.
pub open spec fn classify_spec(b: Seq<u8>) -> Verdict {
    if b.len() < ETHERNET_HEADER_LEN {
        Verdict::Pass
    } else if spec_ethertype(b) != ETHERTYPE_IPV4 {
        Verdict::Pass
    } else if b.len() < ETHERNET_HEADER_LEN + IPV4_MIN_HEADER_LEN {
        Verdict::Pass
    } else if spec_protocol(b) != IPPROTO_UDP {
        Verdict::Pass
    } else if b.len() < spec_udp_offset(b) + UDP_HEADER_LEN {
        Verdict::Pass
    } else if spec_udp_dest_port(b) != DNS_PORT {
        Verdict::Pass
    } else {
        Verdict::Drop
    }
}

/// The chain stopped because bytes were missing: the frame ends before the
/// header the next stage was about to read.
pub open spec fn spec_out_of_bounds(b: Seq<u8>) -> bool {
    ||| b.len() < ETHERNET_HEADER_LEN
    ||| (spec_ethertype(b) == ETHERTYPE_IPV4 && b.len() < ETHERNET_HEADER_LEN
        + IPV4_MIN_HEADER_LEN)
    ||| (spec_ethertype(b) == ETHERTYPE_IPV4 && spec_protocol(b) == IPPROTO_UDP && b.len()
        < spec_udp_offset(b) + UDP_HEADER_LEN)
}

/// Run the parse chain. `None` reports that the frame ran out of bytes at
/// some stage; `Some` carries the verdict of a chain that finished. A host
/// with no use for the distinction treats `None` as a pass, as `classify`
/// does.
pub fn try_classify(frame: &[u8]) -> (r: Option<Verdict>)
    ensures
        r is Some <==> !spec_out_of_bounds(frame@),
        r matches Some(v) ==> v == classify_spec(frame@),
{
    let eth = match parse_ethernet(frame) {
        Some(h) => h,
        None => return None,
    };
    if eth.ethertype != ETHERTYPE_IPV4 {
        return Some(Verdict::Pass);
    }
    let ip = match parse_ipv4(frame, ETHERNET_HEADER_LEN) {
        Some(h) => h,
        None => return None,
    };
    if ip.protocol != IPPROTO_UDP {
        return Some(Verdict::Pass);
    }
    let udp_off = ETHERNET_HEADER_LEN + ip.ihl_bytes();
    let udp = match parse_udp(frame, udp_off) {
        Some(h) => h,
        None => return None,
    };
    if udp.dest_port == DNS_PORT {
        Some(Verdict::Drop)
    } else {
        Some(Verdict::Pass)
    }
}

/// Classify one frame. The verdict is a drop exactly for DNS traffic
/// whose headers all lie inside the buffer, and a pass in every other
/// case, unparseable frames included.
pub fn classify(frame: &[u8]) -> (v: Verdict)
    ensures
        v == classify_spec(frame@),
{
    match try_classify(frame) {
        Some(v) => v,
        None => Verdict::Pass,
    }
}

/// No frame too short to hold the Ethernet and minimal IPv4 headers is
/// ever dropped, whatever its bytes hold.
pub proof fn lemma_short_frame_passes(b: Seq<u8>)
    requires
        b.len() < ETHERNET_HEADER_LEN + IPV4_MIN_HEADER_LEN,
    ensures
        classify_spec(b) == Verdict::Pass,
{
}

/// A frame cut anywhere before the end of a standard-or-longer chain passes:
/// with an IHL nibble of at least 5 (every well-formed IPv4 header), the UDP
/// header cannot end before byte 42, so a shorter frame is never dropped.
pub proof fn lemma_truncated_frame_passes(b: Seq<u8>)
    requires
        b.len() < ETHERNET_HEADER_LEN + IPV4_MIN_HEADER_LEN + UDP_HEADER_LEN,
        b.len() >= ETHERNET_HEADER_LEN + IPV4_MIN_HEADER_LEN ==> b[ETHERNET_HEADER_LEN as int] % 16
            >= 5,
    ensures
        classify_spec(b) == Verdict::Pass,
{
}

/// A frame long enough for the whole chain: the Ethernet and option-less
/// IPv4 headers fit, the IHL nibble is in its legal range, and the UDP header
/// fits at the offset the nibble computes.
pub open spec fn spec_well_formed_udp(b: Seq<u8>) -> bool {
    &&& b.len() >= ETHERNET_HEADER_LEN + IPV4_MIN_HEADER_LEN
    &&& b[ETHERNET_HEADER_LEN as int] % 16 >= 5
    &&& b.len() >= spec_udp_offset(b) + UDP_HEADER_LEN
}

/// Policy correctness: over every structurally complete frame, the verdict
/// is `Drop` exactly when the ethertype is IPv4, the IP protocol is UDP and
/// the UDP destination port is 53 — and `Pass` otherwise.
pub proof fn lemma_policy_correct(b: Seq<u8>)
    requires
        spec_well_formed_udp(b),
    ensures
        classify_spec(b) == Verdict::Drop <==> (spec_ethertype(b) == ETHERTYPE_IPV4
            && spec_protocol(b) == IPPROTO_UDP && spec_udp_dest_port(b) == DNS_PORT),
        classify_spec(b) != Verdict::Drop ==> classify_spec(b) == Verdict::Pass,
{
}

/// The verdict is a function of the frame's bytes alone: two frames with the
/// same bytes are classified the same way, so classifying a buffer twice
/// yields the same verdict both times.
pub proof fn lemma_classify_deterministic(a: Seq<u8>, b: Seq<u8>)
    requires
        a == b,
    ensures
        classify_spec(a) == classify_spec(b),
{
}

} // verus!
