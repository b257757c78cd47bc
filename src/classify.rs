//! Classification of raw link-layer frames by their ethertype field.
use pnet::packet::ethernet::EthernetPacket;
use vstd::prelude::*;

verus! {

/// Length of an Ethernet header: two MAC addresses and the ethertype field.
pub const ETHERNET_HEADER_LEN: usize = 14;

/// Ethertype value of IPv4.
pub const ETHERTYPE_IPV4: u16 = 0x0800;

/// Ethertype value of ARP.
pub const ETHERTYPE_ARP: u16 = 0x0806;

/// Outcome of classifying one frame.
#[derive(Clone, Copy, Debug, PartialEq, Eq, Structural, Hash)]
pub enum ProtocolTag {
    Ipv4,
    Arp,
    Unknown,
}

/// The ethertype field of a frame with a full header: bytes 12 and 13, big-endian.
pub open spec fn ethertype_field(frame: Seq<u8>) -> int {
    (frame[12] as int) * 256 + (frame[13] as int)
}

/// The tag that an ethertype value maps to.
pub open spec fn tag_of_ethertype(ethertype: int) -> ProtocolTag {
    if ethertype == ETHERTYPE_IPV4 as int {
        ProtocolTag::Ipv4
    } else if ethertype == ETHERTYPE_ARP as int {
        ProtocolTag::Arp
    } else {
        ProtocolTag::Unknown
    }
}

/// The tag of a frame: `Unknown` when it is too short to hold a header,
/// else the tag of its ethertype field.
pub open spec fn classify_spec(frame: Seq<u8>) -> ProtocolTag {
    if frame.len() < ETHERNET_HEADER_LEN {
        ProtocolTag::Unknown
    } else {
        tag_of_ethertype(ethertype_field(frame))
    }
}

/// The display name of a tag.
pub open spec fn tag_label(tag: ProtocolTag) -> Seq<char> {
    match tag {
        ProtocolTag::Ipv4 => "IPv4"@,
        ProtocolTag::Arp => "ARP"@,
        ProtocolTag::Unknown => "Unknown"@,
    }
}

impl ProtocolTag {
    /// The name under which the tag is reported.
    pub fn label(&self) -> (r: String)
        ensures
            r@ == tag_label(*self),
    {
        match self {
            ProtocolTag::Ipv4 => "IPv4".to_string(),
            ProtocolTag::Arp => "ARP".to_string(),
            ProtocolTag::Unknown => "Unknown".to_string(),
        }
    }
}

/// Relies on pnet's `EthernetPacket::new`, which gives `None` for a buffer
/// shorter than the 14-byte header, and on `get_ethertype`, which reads
/// bytes 12 and 13 as a big-endian `u16`.
#[verifier::external_body]
fn read_ethertype(frame: &[u8]) -> (r: Option<u16>)
    ensures
        r is None <==> frame@.len() < ETHERNET_HEADER_LEN,
        r is Some ==> r->0 as int == ethertype_field(frame@),
{
    match EthernetPacket::new(frame) {
        Some(packet) => Some(packet.get_ethertype().0),
        None => None,
    }
}

/// Maps an ethertype value to its tag.
pub fn classify_ethertype(ethertype: u16) -> (r: ProtocolTag)
    ensures
        r == tag_of_ethertype(ethertype as int),
        ethertype == ETHERTYPE_IPV4 ==> r == ProtocolTag::Ipv4,
        ethertype == ETHERTYPE_ARP ==> r == ProtocolTag::Arp,
        ethertype != ETHERTYPE_IPV4 && ethertype != ETHERTYPE_ARP ==> r == ProtocolTag::Unknown,
{
    if ethertype == ETHERTYPE_IPV4 {
        ProtocolTag::Ipv4
    } else if ethertype == ETHERTYPE_ARP {
        ProtocolTag::Arp
    } else {
        ProtocolTag::Unknown
    }
}

/// Classifies one raw frame. Never fails: a truncated frame is `Unknown`.
pub fn classify(frame: &[u8]) -> (r: ProtocolTag)
    ensures
        r == classify_spec(frame@),
        frame@.len() < ETHERNET_HEADER_LEN ==> r == ProtocolTag::Unknown,
{
    match read_ethertype(frame) {
        Some(ethertype) => classify_ethertype(ethertype),
        None => ProtocolTag::Unknown,
    }
}

/// Classification depends on the frame's bytes alone: equal byte sequences
/// get equal tags.
pub proof fn lemma_classify_deterministic(a: Seq<u8>, b: Seq<u8>)
    requires
        a == b,
    ensures
        classify_spec(a) == classify_spec(b),
{
}

/// A frame shorter than the header is `Unknown`.
pub proof fn lemma_short_frame_unknown(frame: Seq<u8>)
    requires
        frame.len() < ETHERNET_HEADER_LEN,
    ensures
        classify_spec(frame) == ProtocolTag::Unknown,
{
}

/// A frame with a full header is tagged by its ethertype field: `0x0800` is
/// IPv4, `0x0806` is ARP, and every other value is `Unknown`.
pub proof fn lemma_ethertype_decides(frame: Seq<u8>)
    requires
        frame.len() >= ETHERNET_HEADER_LEN,
    ensures
        ethertype_field(frame) == 0x0800 ==> classify_spec(frame) == ProtocolTag::Ipv4,
        ethertype_field(frame) == 0x0806 ==> classify_spec(frame) == ProtocolTag::Arp,
        ethertype_field(frame) != 0x0800 && ethertype_field(frame) != 0x0806
            ==> classify_spec(frame) == ProtocolTag::Unknown,
{
}

} // verus!
