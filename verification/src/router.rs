//! The router's two forwarding decisions.
//!
//! The router sits between the virtual interface and the WebSocket
//! sessions.  A packet read from the interface is routed towards the
//! session registered under its destination address; a packet received
//! from a session is admitted to the interface only if the source address
//! its own header claims equals the address the session authenticated as.
//! Both decisions are total over arbitrary bytes: an unparseable or
//! unsupported packet is dropped, never a fault.

use vstd::prelude::*;

use crate::directory::Directory;
use crate::net::spec_dst;
use crate::net::spec_parse_packet;
use crate::net::spec_src;
use crate::net::parse_packet;
use crate::net::IpAddress;
use crate::net::ParseResult;
use crate::registry::Registry;

verus! {

/// A packet handed up by a session's inbound task: the payload bytes and
/// the address the producing session authenticated as — independent of
/// whatever source address the payload's own header claims, which is what
/// makes the anti-spoofing check possible.
#[derive(Clone, Debug)]
pub struct InboundPacket {
    pub source_client_ip: IpAddress,
    pub payload: Vec<u8>,
}

/// What to do with a packet read from the virtual interface.
#[derive(PartialEq, Eq, Structural, Clone, Copy, Debug)]
pub enum OutboundDecision {
    /// Enqueue the packet, verbatim, on the session holding this handle.
    Forward(u64),
    /// The bytes do not parse as an IP packet: drop.
    DropMalformed,
    /// Neither IPv4 nor IPv6: drop.
    DropUnsupported,
    /// The destination address belongs to no known client: drop.
    DropUnknownDestination,
    /// The destination is a known client with no live session: drop,
    /// never queue for later.
    DropNotConnected,
}

/// What to do with a packet received from a session.
#[derive(PartialEq, Eq, Structural, Clone, Copy, Debug)]
pub enum InboundDecision {
    /// Write the payload, verbatim, to the virtual interface.
    Deliver,
    /// The payload does not parse as an IP packet: drop.
    DropMalformed,
    /// Neither IPv4 nor IPv6: drop.
    DropUnsupported,
    /// The header's claimed source differs from the authenticated
    /// address: a spoofing attempt, dropped.
    DropSpoofed,
}

/// The device-to-network decision, as a function of the packet bytes, the
/// directory and the registry.
pub open spec fn spec_route_outbound(b: Seq<u8>, dir: Directory, reg: Registry) -> OutboundDecision {
    match spec_parse_packet(b) {
        ParseResult::Malformed => OutboundDecision::DropMalformed,
        ParseResult::Unsupported => OutboundDecision::DropUnsupported,
        ParseResult::Parsed { src, dst } => if !dir.owns_ip(dst) {
            OutboundDecision::DropUnknownDestination
        } else if !reg.connected(dst) {
            OutboundDecision::DropNotConnected
        } else {
            OutboundDecision::Forward(reg.handle_of(dst))
        },
    }
}

/// The network-to-device decision, as a function of the authenticated
/// source address and the payload bytes.
pub open spec fn spec_route_inbound(tag: IpAddress, payload: Seq<u8>) -> InboundDecision {
    match spec_parse_packet(payload) {
        ParseResult::Malformed => InboundDecision::DropMalformed,
        ParseResult::Unsupported => InboundDecision::DropUnsupported,
        ParseResult::Parsed { src, dst } => if src == tag {
            InboundDecision::Deliver
        } else {
            InboundDecision::DropSpoofed
        },
    }
}

/// Decides the fate of one packet read from the virtual interface: parse
/// the destination, check it is a known client, and resolve the live
/// session's handle; each failure names the drop it causes.
pub fn route_outbound(packet: &Vec<u8>, dir: &Directory, reg: &Registry) -> (d: OutboundDecision)
    requires
        reg.wf(),
    ensures
        d == spec_route_outbound(packet@, *dir, *reg),
{
    match parse_packet(packet) {
        ParseResult::Malformed => OutboundDecision::DropMalformed,
        ParseResult::Unsupported => OutboundDecision::DropUnsupported,
        ParseResult::Parsed { src, dst } => {
            if !dir.owns(dst) {
                OutboundDecision::DropUnknownDestination
            } else {
                match reg.lookup(dst) {
                    None => OutboundDecision::DropNotConnected,
                    Some(h) => OutboundDecision::Forward(h),
                }
            }
        },
    }
}

/// Decides the fate of one packet received from a session: parse the
/// claimed source and admit the payload only when it equals the address
/// the session authenticated as.
pub fn route_inbound(pkt: &InboundPacket) -> (d: InboundDecision)
    ensures
        d == spec_route_inbound(pkt.source_client_ip, pkt.payload@),
{
    match parse_packet(&pkt.payload) {
        ParseResult::Malformed => InboundDecision::DropMalformed,
        ParseResult::Unsupported => InboundDecision::DropUnsupported,
        ParseResult::Parsed { src, dst } => {
            if src == pkt.source_client_ip {
                InboundDecision::Deliver
            } else {
                InboundDecision::DropSpoofed
            }
        },
    }
}

/// Routing correctness: a packet whose destination is a registered
/// address `a` is forwarded exactly to the handle registered under `a`;
/// for any other registered address `b` with a distinct handle, it is
/// never forwarded to `b`'s handle.
pub proof fn lemma_routing_isolation(
    b: Seq<u8>,
    dir: Directory,
    reg: Registry,
    a: IpAddress,
    other: IpAddress,
    ha: u64,
    hb: u64,
)
    requires
        reg.wf(),
        a != other,
        reg.maps(a, ha),
        reg.maps(other, hb),
        spec_dst(b) == Some(a),
        dir.owns_ip(a),
    ensures
        spec_route_outbound(b, dir, reg) == OutboundDecision::Forward(ha),
        ha != hb ==> spec_route_outbound(b, dir, reg) != OutboundDecision::Forward(hb),
{
    crate::registry::lemma_handle_unique(reg, a, ha);
}

/// Anti-spoofing: an inbound packet whose header claims a source address
/// different from the one its session authenticated as is dropped as
/// spoofed and never delivered to the interface.
pub proof fn lemma_anti_spoof(tag: IpAddress, payload: Seq<u8>, claimed: IpAddress)
    requires
        spec_src(payload) == Some(claimed),
        claimed != tag,
    ensures
        spec_route_inbound(tag, payload) == InboundDecision::DropSpoofed,
        spec_route_inbound(tag, payload) != InboundDecision::Deliver,
{
}

/// Unknown destinations never reach the registry: a packet whose
/// destination no client owns is dropped as unknown, and the decision is
/// the same whatever the registry holds.
pub proof fn lemma_unknown_destination_skips_registry(
    b: Seq<u8>,
    dir: Directory,
    reg1: Registry,
    reg2: Registry,
    d: IpAddress,
)
    requires
        spec_dst(b) == Some(d),
        !dir.owns_ip(d),
    ensures
        spec_route_outbound(b, dir, reg1) == OutboundDecision::DropUnknownDestination,
        spec_route_outbound(b, dir, reg1) == spec_route_outbound(b, dir, reg2),
{
}

} // verus!
