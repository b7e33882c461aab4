//! The payloads of the peer protocol: requests and responses as bytes.
//!
//! A payload opens with one byte that names the kind of message. Numbers
//! travel most significant byte first, a byte string behind its length as
//! a 64-bit number, a list behind the number of its items. Decoding
//! accepts exactly the payloads that encoding produces, and nothing may
//! follow a message in its payload.

use crate::abi::{read_u32, read_u64, word32, word64, Endian};
use crate::argument::ArgumentIterator;
use crate::bytes::{append_bytes, copy_bytes};
use crate::meta::FileKind;
use crate::wire::{
    be_bytes32, be_bytes64, lemma_be_bytes32_round_trip, lemma_be_bytes64_round_trip, put_u64,
};
use vstd::prelude::*;

verus! {

/// The bytes of a byte string: its length, then the string.
pub open spec fn enc_bytes(bytes: Seq<u8>) -> Seq<u8> {
    be_bytes64(bytes.len() as u64) + bytes
}

/// The bytes of an optional byte string: a zero byte for none, or a one
/// byte and the string.
pub open spec fn enc_opt_bytes(bytes: Option<Seq<u8>>) -> Seq<u8> {
    match bytes {
        None => seq![0u8],
        Some(b) => seq![1u8] + enc_bytes(b),
    }
}

/// The byte that stands for a kind of node.
pub open spec fn kind_byte(kind: FileKind) -> u8 {
    match kind {
        FileKind::File => 0,
        FileKind::Directory => 1,
        FileKind::Symlink => 2,
    }
}

/// Reads one byte from the front of `s`.
pub open spec fn dec_u8(s: Seq<u8>) -> Option<(u8, Seq<u8>)> {
    if s.len() >= 1 {
        Some((s[0], s.skip(1)))
    } else {
        None
    }
}

/// Reads a 32-bit number from the front of `s`.
pub open spec fn dec_u32(s: Seq<u8>) -> Option<(u32, Seq<u8>)> {
    if s.len() >= 4 {
        Some((word32(s, 0, Endian::Big), s.skip(4)))
    } else {
        None
    }
}

/// Reads a 64-bit number from the front of `s`.
pub open spec fn dec_u64(s: Seq<u8>) -> Option<(u64, Seq<u8>)> {
    if s.len() >= 8 {
        Some((word64(s, 0, Endian::Big), s.skip(8)))
    } else {
        None
    }
}

/// Reads a byte string from the front of `s`.
pub open spec fn dec_bytes(s: Seq<u8>) -> Option<(Seq<u8>, Seq<u8>)> {
    match dec_u64(s) {
        Some((len, rest)) => if len <= rest.len() {
            Some((rest.take(len as int), rest.skip(len as int)))
        } else {
            None
        },
        None => None,
    }
}

/// Reads an optional byte string from the front of `s`.
pub open spec fn dec_opt_bytes(s: Seq<u8>) -> Option<(Option<Seq<u8>>, Seq<u8>)> {
    match dec_u8(s) {
        Some((flag, rest)) => if flag == 0 {
            Some((None, rest))
        } else if flag == 1 {
            match dec_bytes(rest) {
                Some((bytes, rest)) => Some((Some(bytes), rest)),
                None => None,
            }
        } else {
            None
        },
        None => None,
    }
}

/// Reads a kind of node from the front of `s`.
pub open spec fn dec_kind(s: Seq<u8>) -> Option<(FileKind, Seq<u8>)> {
    match dec_u8(s) {
        Some((byte, rest)) => if byte == 0 {
            Some((FileKind::File, rest))
        } else if byte == 1 {
            Some((FileKind::Directory, rest))
        } else if byte == 2 {
            Some((FileKind::Symlink, rest))
        } else {
            None
        },
        None => None,
    }
}

/// A byte is read back from in front of whatever follows it.
pub proof fn lemma_dec_u8(byte: u8, rest: Seq<u8>)
    ensures
        dec_u8(seq![byte] + rest) == Some((byte, rest)),
{
    assert((seq![byte] + rest).skip(1) =~= rest);
}

/// A 32-bit number is read back from in front of whatever follows it.
pub proof fn lemma_dec_u32(n: u32, rest: Seq<u8>)
    ensures
        dec_u32(be_bytes32(n) + rest) == Some((n, rest)),
{
    let s = be_bytes32(n) + rest;
    lemma_be_bytes32_round_trip(n);
    assert forall|i: int| 0 <= i < 4 implies s[i] == be_bytes32(n)[i] by {}
    assert(word32(s, 0, Endian::Big) == word32(be_bytes32(n), 0, Endian::Big));
    assert(s.skip(4) =~= rest);
}

/// A 64-bit number is read back from in front of whatever follows it.
pub proof fn lemma_dec_u64(n: u64, rest: Seq<u8>)
    ensures
        dec_u64(be_bytes64(n) + rest) == Some((n, rest)),
{
    let s = be_bytes64(n) + rest;
    lemma_be_bytes64_round_trip(n);
    assert forall|i: int| 0 <= i < 8 implies s[i] == be_bytes64(n)[i] by {}
    assert(word64(s, 0, Endian::Big) == word64(be_bytes64(n), 0, Endian::Big));
    assert(s.skip(8) =~= rest);
}

/// A byte string is read back from in front of whatever follows it.
pub proof fn lemma_dec_bytes(bytes: Seq<u8>, rest: Seq<u8>)
    requires
        bytes.len() <= u64::MAX,
    ensures
        dec_bytes(enc_bytes(bytes) + rest) == Some((bytes, rest)),
{
    let n = bytes.len() as u64;
    assert(enc_bytes(bytes) + rest =~= be_bytes64(n) + (bytes + rest));
    lemma_dec_u64(n, bytes + rest);
    assert((bytes + rest).take(n as int) =~= bytes);
    assert((bytes + rest).skip(n as int) =~= rest);
}

/// An optional byte string is read back from in front of whatever follows
/// it.
pub proof fn lemma_dec_opt_bytes(bytes: Option<Seq<u8>>, rest: Seq<u8>)
    requires
        bytes matches Some(b) ==> b.len() <= u64::MAX,
    ensures
        dec_opt_bytes(enc_opt_bytes(bytes) + rest) == Some((bytes, rest)),
{
    match bytes {
        None => {
            lemma_dec_u8(0, rest);
        },
        Some(b) => {
            assert(enc_opt_bytes(bytes) + rest =~= seq![1u8] + (enc_bytes(b) + rest));
            lemma_dec_u8(1, enc_bytes(b) + rest);
            lemma_dec_bytes(b, rest);
        },
    }
}

/// A kind of node is read back from in front of whatever follows it.
pub proof fn lemma_dec_kind(kind: FileKind, rest: Seq<u8>)
    ensures
        dec_kind(seq![kind_byte(kind)] + rest) == Some((kind, rest)),
{
    lemma_dec_u8(kind_byte(kind), rest);
}

/// Appends a byte string, behind its length, to `out`.
pub fn put_bytes(out: &mut Vec<u8>, bytes: &[u8])
    ensures
        final(out)@ == old(out)@ + enc_bytes(bytes@),
{
    put_u64(out, bytes.len() as u64);
    append_bytes(out, bytes);
    assert(out@ =~= old(out)@ + enc_bytes(bytes@));
}

/// Appends an optional byte string to `out`.
pub fn put_opt_bytes(out: &mut Vec<u8>, bytes: &Option<Vec<u8>>)
    ensures
        final(out)@ == old(out)@ + enc_opt_bytes(crate::peer::opt_view(*bytes)),
{
    match bytes {
        None => {
            out.push(0);
            assert(out@ =~= old(out)@ + seq![0u8]);
        },
        Some(b) => {
            out.push(1);
            put_bytes(out, b.as_slice());
            assert(out@ =~= old(out)@ + (seq![1u8] + enc_bytes(b@)));
        },
    }
}

/// Appends the byte of a kind of node to `out`.
pub fn put_kind(out: &mut Vec<u8>, kind: FileKind)
    ensures
        final(out)@ == old(out)@ + seq![kind_byte(kind)],
{
    let byte: u8 = match kind {
        FileKind::File => 0,
        FileKind::Directory => 1,
        FileKind::Symlink => 2,
    };
    out.push(byte);
    assert(out@ =~= old(out)@ + seq![kind_byte(kind)]);
}

/// Reads one byte.
pub fn get_u8(input: &mut ArgumentIterator) -> (r: Option<u8>)
    ensures
        final(input).buffer() == old(input).buffer(),
        match r {
            Some(v) => dec_u8(old(input).remaining()) == Some((v, final(input).remaining())),
            None => dec_u8(old(input).remaining()) is None,
        },
{
    match input.fetch_bytes(1) {
        Some(bytes) => Some(bytes[0]),
        None => None,
    }
}

/// Reads a 32-bit number.
pub fn get_u32(input: &mut ArgumentIterator) -> (r: Option<u32>)
    ensures
        final(input).buffer() == old(input).buffer(),
        match r {
            Some(v) => dec_u32(old(input).remaining()) == Some((v, final(input).remaining())),
            None => dec_u32(old(input).remaining()) is None,
        },
{
    match input.fetch_bytes(4) {
        Some(bytes) => {
            assert(bytes@.skip(0) =~= bytes@);
            let v = read_u32(bytes, 0, 0, Endian::Big);
            assert(word32(bytes@, 0, Endian::Big) == word32(
                old(input).remaining(),
                0,
                Endian::Big,
            ));
            Some(v)
        },
        None => None,
    }
}

/// Reads a 64-bit number.
pub fn get_u64(input: &mut ArgumentIterator) -> (r: Option<u64>)
    ensures
        final(input).buffer() == old(input).buffer(),
        match r {
            Some(v) => dec_u64(old(input).remaining()) == Some((v, final(input).remaining())),
            None => dec_u64(old(input).remaining()) is None,
        },
{
    match input.fetch_bytes(8) {
        Some(bytes) => {
            assert(bytes@.skip(0) =~= bytes@);
            let v = read_u64(bytes, 0, 0, Endian::Big);
            assert(word64(bytes@, 0, Endian::Big) == word64(
                old(input).remaining(),
                0,
                Endian::Big,
            ));
            Some(v)
        },
        None => None,
    }
}

/// Reads a byte string.
pub fn get_bytes(input: &mut ArgumentIterator) -> (r: Option<Vec<u8>>)
    ensures
        final(input).buffer() == old(input).buffer(),
        match r {
            Some(v) => dec_bytes(old(input).remaining()) == Some((v@, final(input).remaining())),
            None => dec_bytes(old(input).remaining()) is None,
        },
{
    let len = match get_u64(input) {
        Some(len) => len,
        None => return None,
    };
    if len > input.len() as u64 {
        return None;
    }
    match input.fetch_bytes(len as usize) {
        Some(bytes) => Some(copy_bytes(bytes)),
        None => None,
    }
}

/// Reads an optional byte string.
pub fn get_opt_bytes(input: &mut ArgumentIterator) -> (r: Option<Option<Vec<u8>>>)
    ensures
        final(input).buffer() == old(input).buffer(),
        match r {
            Some(v) => dec_opt_bytes(old(input).remaining()) == Some(
                (crate::peer::opt_view(v), final(input).remaining()),
            ),
            None => dec_opt_bytes(old(input).remaining()) is None,
        },
{
    let flag = match get_u8(input) {
        Some(flag) => flag,
        None => return None,
    };
    if flag == 0 {
        Some(None)
    } else if flag == 1 {
        match get_bytes(input) {
            Some(bytes) => Some(Some(bytes)),
            None => None,
        }
    } else {
        None
    }
}

/// Reads a kind of node.
pub fn get_kind(input: &mut ArgumentIterator) -> (r: Option<FileKind>)
    ensures
        final(input).buffer() == old(input).buffer(),
        match r {
            Some(v) => dec_kind(old(input).remaining()) == Some((v, final(input).remaining())),
            None => dec_kind(old(input).remaining()) is None,
        },
{
    match get_u8(input) {
        Some(0) => Some(FileKind::File),
        Some(1) => Some(FileKind::Directory),
        Some(2) => Some(FileKind::Symlink),
        _ => None,
    }
}

} // verus!
