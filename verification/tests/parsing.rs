use httpstun::net::IpAddress;
use httpstun::net::ParseResult;
use httpstun::net::parse_packet;

fn v4_packet(src: [u8; 4], dst: [u8; 4]) -> Vec<u8> {
    let mut p = vec![0u8; 20];
    p[0] = 0x45;
    p[12..16].copy_from_slice(&src);
    p[16..20].copy_from_slice(&dst);
    p
}

fn v6_packet(src: [u8; 16], dst: [u8; 16]) -> Vec<u8> {
    let mut p = vec![0u8; 40];
    p[0] = 0x60;
    p[8..24].copy_from_slice(&src);
    p[24..40].copy_from_slice(&dst);
    p
}

#[test]
fn parses_ipv4_addresses() {
    let p = v4_packet([10, 10, 10, 2], [10, 10, 10, 3]);
    assert_eq!(
        parse_packet(&p),
        ParseResult::Parsed {
            src: IpAddress::V4(0x0a0a0a02),
            dst: IpAddress::V4(0x0a0a0a03),
        }
    );
}

#[test]
fn parses_ipv4_with_options() {
    // IHL 6: a 24-byte header; addresses still sit at offsets 12 and 16.
    let mut p = vec![0u8; 24];
    p[0] = 0x46;
    p[12..16].copy_from_slice(&[192, 168, 0, 1]);
    p[16..20].copy_from_slice(&[192, 168, 0, 2]);
    assert_eq!(
        parse_packet(&p),
        ParseResult::Parsed {
            src: IpAddress::V4(0xc0a80001),
            dst: IpAddress::V4(0xc0a80002),
        }
    );
}

#[test]
fn parses_ipv6_addresses() {
    let mut src = [0u8; 16];
    src[0] = 0x20;
    src[1] = 0x01;
    src[15] = 0x02;
    let mut dst = [0u8; 16];
    dst[0] = 0x20;
    dst[1] = 0x01;
    dst[15] = 0x03;
    let p = v6_packet(src, dst);
    assert_eq!(
        parse_packet(&p),
        ParseResult::Parsed {
            src: IpAddress::V6(0x2001_0000_0000_0000_0000_0000_0000_0002),
            dst: IpAddress::V6(0x2001_0000_0000_0000_0000_0000_0000_0003),
        }
    );
}

#[test]
fn empty_input_is_malformed() {
    assert_eq!(parse_packet(&Vec::new()), ParseResult::Malformed);
}

#[test]
fn short_ipv4_is_malformed() {
    let p = vec![0x45u8; 19];
    assert_eq!(parse_packet(&p), ParseResult::Malformed);
}

#[test]
fn ipv4_header_length_below_minimum_is_malformed() {
    let mut p = vec![0u8; 20];
    p[0] = 0x44;
    assert_eq!(parse_packet(&p), ParseResult::Malformed);
}

#[test]
fn ipv4_truncated_below_header_length_is_malformed() {
    // IHL 15 asks for 60 bytes; only 20 are present.
    let mut p = vec![0u8; 20];
    p[0] = 0x4f;
    assert_eq!(parse_packet(&p), ParseResult::Malformed);
}

#[test]
fn short_ipv6_is_malformed() {
    let p = vec![0x60u8; 39];
    assert_eq!(parse_packet(&p), ParseResult::Malformed);
}

#[test]
fn other_version_is_unsupported() {
    let mut p = vec![0u8; 40];
    p[0] = 0x50;
    assert_eq!(parse_packet(&p), ParseResult::Unsupported);
    let mut q = vec![0u8; 40];
    q[0] = 0x00;
    assert_eq!(parse_packet(&q), ParseResult::Unsupported);
}

#[test]
fn arbitrary_bytes_never_fault() {
    // A deterministic pseudo-random stream of "packets" of every small
    // length; each must come back tagged, never fault.
    let mut state: u64 = 0x2545f491_4f6cdd1d;
    for len in 0..200usize {
        let mut p = Vec::with_capacity(len);
        for _ in 0..len {
            state = state.wrapping_mul(6364136223846793005).wrapping_add(1442695040888963407);
            p.push((state >> 33) as u8);
        }
        let r = parse_packet(&p);
        match r {
            ParseResult::Parsed { .. } | ParseResult::Unsupported | ParseResult::Malformed => {}
        }
    }
}
