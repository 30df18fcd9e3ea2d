//! Network-layer addresses and the packet header parser.
//!
//! The router only ever needs the source and destination address of a
//! packet, so the parser reads the IPv4 or IPv6 header exactly far enough
//! to extract those, and classifies everything else as unsupported or
//! malformed.  It is a total function over arbitrary bytes: feeding it
//! garbage yields a `Malformed` or `Unsupported` answer, never a fault.

use vstd::prelude::*;

verus! {

/// A network-layer address: an IPv4 address as its 32-bit big-endian value,
/// or an IPv6 address as its 128-bit big-endian value.
#[derive(PartialEq, Eq, Structural, Clone, Copy, Debug)]
pub enum IpAddress {
    V4(u32),
    V6(u128),
}

/// What the network-layer header of a packet says, as far as routing cares:
/// its addresses, or the reason it cannot be routed.
#[derive(PartialEq, Eq, Structural, Clone, Copy, Debug)]
pub enum ParseResult {
    /// A well-formed IPv4 or IPv6 header; `src` and `dst` carry its
    /// source and destination addresses.
    Parsed { src: IpAddress, dst: IpAddress },
    /// The version nibble names neither IPv4 nor IPv6.
    Unsupported,
    /// Too short for its header, or an IPv4 header length below the minimum.
    Malformed,
}

/// The big-endian value of four bytes.
pub open spec fn be32(b: Seq<u8>) -> u32
    recommends
        b.len() == 4,
{
    ((b[0] as u32) << 24) | ((b[1] as u32) << 16) | ((b[2] as u32) << 8) | (b[3] as u32)
}

/// The big-endian value of a byte sequence, folded from the left.
pub open spec fn be128(b: Seq<u8>) -> u128
    decreases b.len(),
{
    if b.len() == 0 {
        0
    } else {
        (be128(b.drop_last()) << 8) | (b.last() as u128)
    }
}

/// The parser's definition: what any byte sequence parses to.
///
/// An IPv4 packet must carry at least its own header (`4 * IHL` bytes,
/// `IHL >= 5`); an IPv6 packet at least the fixed 40-byte header.  The
/// version nibble decides which grammar applies; any other version is
/// unsupported rather than malformed.
pub open spec fn spec_parse_packet(b: Seq<u8>) -> ParseResult {
    if b.len() == 0 {
        ParseResult::Malformed
    } else if b[0] >> 4 == 4 {
        if (b[0] & 0x0f) >= 5 && b.len() >= 4 * ((b[0] & 0x0f) as int) {
            ParseResult::Parsed {
                src: IpAddress::V4(be32(b.subrange(12, 16))),
                dst: IpAddress::V4(be32(b.subrange(16, 20))),
            }
        } else {
            ParseResult::Malformed
        }
    } else if b[0] >> 4 == 6 {
        if b.len() >= 40 {
            ParseResult::Parsed {
                src: IpAddress::V6(be128(b.subrange(8, 24))),
                dst: IpAddress::V6(be128(b.subrange(24, 40))),
            }
        } else {
            ParseResult::Malformed
        }
    } else {
        ParseResult::Unsupported
    }
}

/// The source address a byte sequence's header claims, if it parses.
pub open spec fn spec_src(b: Seq<u8>) -> Option<IpAddress> {
    match spec_parse_packet(b) {
        ParseResult::Parsed { src, dst } => Some(src),
        _ => None,
    }
}

/// The destination address a byte sequence's header names, if it parses.
pub open spec fn spec_dst(b: Seq<u8>) -> Option<IpAddress> {
    match spec_parse_packet(b) {
        ParseResult::Parsed { src, dst } => Some(dst),
        _ => None,
    }
}

/// Reads four bytes at `off` as a big-endian 32-bit value.
fn read_be32(b: &Vec<u8>, off: usize) -> (r: u32)
    requires
        off + 4 <= b.len(),
    ensures
        r == be32(b@.subrange(off as int, off as int + 4)),
{
    let r = ((b[off] as u32) << 24) | ((b[off + 1] as u32) << 16) | ((b[off + 2] as u32) << 8)
        | (b[off + 3] as u32);
    proof {
        let s = b@.subrange(off as int, off as int + 4);
        assert(s[0] == b@[off as int]);
        assert(s[1] == b@[off as int + 1]);
        assert(s[2] == b@[off as int + 2]);
        assert(s[3] == b@[off as int + 3]);
    }
    r
}

/// Reads sixteen bytes at `off` as a big-endian 128-bit value.
fn read_be128(b: &Vec<u8>, off: usize) -> (r: u128)
    requires
        off + 16 <= b.len(),
    ensures
        r == be128(b@.subrange(off as int, off as int + 16)),
{
    let mut acc: u128 = 0;
    let mut i: usize = 0;
    while i < 16
        invariant
            off + 16 <= b.len(),
            i <= 16,
            acc == be128(b@.subrange(off as int, off as int + i as int)),
        decreases 16 - i,
    {
        proof {
            let cur = b@.subrange(off as int, off as int + i as int);
            let next = b@.subrange(off as int, off as int + i as int + 1);
            assert(next.drop_last() =~= cur);
            assert(next.last() == b@[off as int + i as int]);
        }
        acc = (acc << 8) | (b[off + i] as u128);
        i = i + 1;
    }
    acc
}

/// Parses the network-layer header of an arbitrary byte sequence.
///
/// Total: any input yields a tagged answer, never a fault.
pub fn parse_packet(b: &Vec<u8>) -> (r: ParseResult)
    ensures
        r == spec_parse_packet(b@),
{
    if b.len() == 0 {
        return ParseResult::Malformed;
    }
    let version = b[0] >> 4;
    if version == 4 {
        let ihl = (b[0] & 0x0f) as usize;
        if ihl >= 5 && b.len() >= 4 * ihl {
            let src = IpAddress::V4(read_be32(b, 12));
            let dst = IpAddress::V4(read_be32(b, 16));
            ParseResult::Parsed { src, dst }
        } else {
            ParseResult::Malformed
        }
    } else if version == 6 {
        if b.len() >= 40 {
            let src = IpAddress::V6(read_be128(b, 8));
            let dst = IpAddress::V6(read_be128(b, 24));
            ParseResult::Parsed { src, dst }
        } else {
            ParseResult::Malformed
        }
    } else {
        ParseResult::Unsupported
    }
}

} // verus!
