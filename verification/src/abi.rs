//! Layout of the kernel wire protocol: byte order, opcodes and the
//! fixed-size argument records that follow the request header.
//!
//! Every record is described twice: `from_wire` says, as a function on a
//! sequence of bytes, which value the bytes stand for, and `read` computes
//! that value from a buffer.

use vstd::prelude::*;

verus! {

/// Order in which the bytes of a multi-byte integer appear on the wire.
#[derive(Debug, Clone, Copy, PartialEq, Eq, Structural)]
pub enum Endian {
    /// Least significant byte first.
    Little,
    /// Most significant byte first.
    Big,
}

/// The variant of the kernel protocol that a packet follows: the byte order
/// of the host and whether the host is macOS, which knows three operations
/// more and extends some argument records.
#[derive(Debug, Clone, Copy, PartialEq, Eq, Structural)]
pub struct Abi {
    pub endian: Endian,
    pub macos: bool,
}

/// The 32-bit integer that the four bytes of `s` from index `at` stand for.
pub open spec fn word32(s: Seq<u8>, at: int, endian: Endian) -> u32 {
    match endian {
        Endian::Little => (s[at] as int + s[at + 1] as int * 0x100 + s[at + 2] as int * 0x1_0000
            + s[at + 3] as int * 0x100_0000) as u32,
        Endian::Big => (s[at + 3] as int + s[at + 2] as int * 0x100 + s[at + 1] as int * 0x1_0000
            + s[at] as int * 0x100_0000) as u32,
    }
}

/// The 64-bit integer that the eight bytes of `s` from index `at` stand for.
pub open spec fn word64(s: Seq<u8>, at: int, endian: Endian) -> u64 {
    match endian {
        Endian::Little => (word32(s, at, endian) as int + word32(s, at + 4, endian) as int
            * 0x1_0000_0000) as u64,
        Endian::Big => (word32(s, at + 4, endian) as int + word32(s, at, endian) as int
            * 0x1_0000_0000) as u64,
    }
}

/// Reads the 32-bit integer at offset `at` of the record that starts at
/// `base`.
pub fn read_u32(bytes: &[u8], base: usize, at: usize, endian: Endian) -> (r: u32)
    requires
        base + at + 4 <= bytes.len(),
    ensures
        r == word32(bytes@.skip(base as int), at as int, endian),
{
    let i: usize = base + at;
    let b0: u32 = bytes[i] as u32;
    let b1: u32 = bytes[i + 1] as u32;
    let b2: u32 = bytes[i + 2] as u32;
    let b3: u32 = bytes[i + 3] as u32;
    match endian {
        Endian::Little => b0 + b1 * 0x100 + b2 * 0x1_0000 + b3 * 0x100_0000,
        Endian::Big => b3 + b2 * 0x100 + b1 * 0x1_0000 + b0 * 0x100_0000,
    }
}

/// Reads the 64-bit integer at offset `at` of the record that starts at
/// `base`.
pub fn read_u64(bytes: &[u8], base: usize, at: usize, endian: Endian) -> (r: u64)
    requires
        base + at + 8 <= bytes.len(),
    ensures
        r == word64(bytes@.skip(base as int), at as int, endian),
{
    let first: u64 = read_u32(bytes, base, at, endian) as u64;
    let second: u64 = read_u32(bytes, base, at + 4, endian) as u64;
    match endian {
        Endian::Little => first + second * 0x1_0000_0000,
        Endian::Big => second + first * 0x1_0000_0000,
    }
}

/// A fixed-size argument record of the kernel protocol.
pub trait Record: Sized {
    /// Number of bytes that the record occupies on the wire.
    spec fn wire_size(abi: Abi) -> nat;

    /// The record that the first `wire_size(abi)` bytes of `bytes` stand for.
    spec fn from_wire(bytes: Seq<u8>, abi: Abi) -> Self;

    /// Number of bytes that the record occupies on the wire.
    fn size(abi: Abi) -> (n: usize)
        ensures
            n == Self::wire_size(abi),
    ;

    /// Reads the record that starts at index `base` of `bytes`.
    fn read(bytes: &[u8], base: usize, abi: Abi) -> (r: Self)
        requires
            base + Self::wire_size(abi) <= bytes.len(),
        ensures
            r == Self::from_wire(bytes@.skip(base as int), abi),
    ;
}

/// Header that opens every request of the kernel driver.
#[derive(Debug, Clone, Copy, PartialEq, Eq, Structural)]
pub struct InHeader {
    /// Length of the whole packet, header included.
    pub len: u32,
    pub opcode: u32,
    pub unique: u64,
    pub nodeid: u64,
    pub uid: u32,
    pub gid: u32,
    pub pid: u32,
    pub padding: u32,
}

impl Record for InHeader {
    open spec fn wire_size(abi: Abi) -> nat {
        40
    }

    open spec fn from_wire(bytes: Seq<u8>, abi: Abi) -> InHeader {
        InHeader {
            len: word32(bytes, 0, abi.endian),
            opcode: word32(bytes, 4, abi.endian),
            unique: word64(bytes, 8, abi.endian),
            nodeid: word64(bytes, 16, abi.endian),
            uid: word32(bytes, 24, abi.endian),
            gid: word32(bytes, 28, abi.endian),
            pid: word32(bytes, 32, abi.endian),
            padding: word32(bytes, 36, abi.endian),
        }
    }

    fn size(abi: Abi) -> (n: usize) {
        40
    }

    fn read(bytes: &[u8], base: usize, abi: Abi) -> (r: InHeader) {
        InHeader {
            len: read_u32(bytes, base, 0, abi.endian),
            opcode: read_u32(bytes, base, 4, abi.endian),
            unique: read_u64(bytes, base, 8, abi.endian),
            nodeid: read_u64(bytes, base, 16, abi.endian),
            uid: read_u32(bytes, base, 24, abi.endian),
            gid: read_u32(bytes, base, 28, abi.endian),
            pid: read_u32(bytes, base, 32, abi.endian),
            padding: read_u32(bytes, base, 36, abi.endian),
        }
    }
}

} // verus!
