use argon2::Algorithm;
use argon2::Argon2;
use argon2::Params;
use argon2::PasswordHasher;
use argon2::Version;

use httpstun::directory::Directory;
use httpstun::net::IpAddress;
use httpstun::registry::Registry;
use httpstun::router::InboundDecision;
use httpstun::router::InboundPacket;
use httpstun::router::OutboundDecision;
use httpstun::router::route_inbound;
use httpstun::router::route_outbound;

const ALICE_IP: IpAddress = IpAddress::V4(0x0a0a0a02);
const BOB_IP: IpAddress = IpAddress::V4(0x0a0a0a03);

const ALICE_HANDLE: u64 = 11;
const BOB_HANDLE: u64 = 22;

fn cheap_hash(password: &str) -> String {
    let params = Params::new(8, 1, 1, None).unwrap();
    let hasher = Argon2::new(Algorithm::Argon2id, Version::V0x13, params);
    hasher
        .hash_password_with_salt(password.as_bytes(), b"0123456789abcdef")
        .unwrap()
        .to_string()
}

fn two_client_directory() -> Directory {
    let mut dir = Directory::new();
    dir.add_record("alice".to_string(), cheap_hash("a"), ALICE_IP).unwrap();
    dir.add_record("bob".to_string(), cheap_hash("b"), BOB_IP).unwrap();
    dir
}

fn v4_packet(src: [u8; 4], dst: [u8; 4]) -> Vec<u8> {
    let mut p = vec![0u8; 20];
    p[0] = 0x45;
    p[12..16].copy_from_slice(&src);
    p[16..20].copy_from_slice(&dst);
    p
}

#[test]
fn packet_for_connected_client_goes_to_its_session() {
    // Alice sends a packet for bob; both are connected.  It is routed to
    // the handle registered under bob's address, and only that one.
    let dir = two_client_directory();
    let mut reg = Registry::new();
    reg.register(ALICE_IP, ALICE_HANDLE);
    reg.register(BOB_IP, BOB_HANDLE);
    let p = v4_packet([10, 10, 10, 2], [10, 10, 10, 3]);
    let d = route_outbound(&p, &dir, &reg);
    assert_eq!(d, OutboundDecision::Forward(BOB_HANDLE));
    assert_ne!(d, OutboundDecision::Forward(ALICE_HANDLE));
}

#[test]
fn packet_for_disconnected_client_is_dropped() {
    // Same packet, but bob has no live session: dropped, never queued.
    let dir = two_client_directory();
    let mut reg = Registry::new();
    reg.register(ALICE_IP, ALICE_HANDLE);
    let p = v4_packet([10, 10, 10, 2], [10, 10, 10, 3]);
    assert_eq!(route_outbound(&p, &dir, &reg), OutboundDecision::DropNotConnected);
}

#[test]
fn unknown_destination_is_dropped_whatever_the_registry_holds() {
    let dir = two_client_directory();
    let unknown = [10, 10, 10, 99];
    let p = v4_packet([10, 10, 10, 2], unknown);
    let empty = Registry::new();
    assert_eq!(route_outbound(&p, &dir, &empty), OutboundDecision::DropUnknownDestination);
    // Even a (stray) live entry under that address changes nothing: the
    // directory is consulted first.
    let mut reg = Registry::new();
    reg.register(IpAddress::V4(0x0a0a0a63), 5);
    assert_eq!(route_outbound(&p, &dir, &reg), OutboundDecision::DropUnknownDestination);
}

#[test]
fn fast_reconnect_routes_to_the_newer_session() {
    // Alice connects twice in quick succession; the first session's late
    // teardown must not erase the second one, and subsequent traffic for
    // alice goes to the newer session's handle.
    let dir = two_client_directory();
    let mut reg = Registry::new();
    reg.register(ALICE_IP, 1);
    reg.register(ALICE_IP, 2);
    reg.unregister(ALICE_IP, 1);
    assert_eq!(reg.len(), 1);
    let p = v4_packet([10, 10, 10, 3], [10, 10, 10, 2]);
    assert_eq!(route_outbound(&p, &dir, &reg), OutboundDecision::Forward(2));
}

#[test]
fn unparseable_outbound_packet_is_dropped() {
    let dir = two_client_directory();
    let reg = Registry::new();
    assert_eq!(route_outbound(&vec![0x45u8; 10], &dir, &reg), OutboundDecision::DropMalformed);
    let mut q = vec![0u8; 40];
    q[0] = 0x70;
    assert_eq!(route_outbound(&q, &dir, &reg), OutboundDecision::DropUnsupported);
}

#[test]
fn spoofed_source_is_dropped_before_the_interface() {
    // Alice's session claims a header source that is not alice's
    // address: a spoofing attempt, dropped.
    let pkt = InboundPacket {
        source_client_ip: ALICE_IP,
        payload: v4_packet([10, 10, 10, 9], [10, 10, 10, 1]),
    };
    assert_eq!(route_inbound(&pkt), InboundDecision::DropSpoofed);
}

#[test]
fn authentic_source_is_delivered() {
    let pkt = InboundPacket {
        source_client_ip: ALICE_IP,
        payload: v4_packet([10, 10, 10, 2], [10, 10, 10, 1]),
    };
    assert_eq!(route_inbound(&pkt), InboundDecision::Deliver);
}

#[test]
fn unparseable_inbound_payload_is_dropped() {
    let pkt = InboundPacket { source_client_ip: ALICE_IP, payload: vec![] };
    assert_eq!(route_inbound(&pkt), InboundDecision::DropMalformed);
    let mut q = vec![0u8; 40];
    q[0] = 0x10;
    let pkt2 = InboundPacket { source_client_ip: ALICE_IP, payload: q };
    assert_eq!(route_inbound(&pkt2), InboundDecision::DropUnsupported);
}

#[test]
fn arbitrary_inbound_bytes_never_fault() {
    let mut state: u64 = 0x9e3779b97f4a7c15;
    for len in 0..150usize {
        let mut p = Vec::with_capacity(len);
        for _ in 0..len {
            state = state.wrapping_mul(6364136223846793005).wrapping_add(1442695040888963407);
            p.push((state >> 33) as u8);
        }
        let pkt = InboundPacket { source_client_ip: ALICE_IP, payload: p.clone() };
        let _ = route_inbound(&pkt);
        let dir = Directory::new();
        let reg = Registry::new();
        let _ = route_outbound(&p, &dir, &reg);
    }
}
