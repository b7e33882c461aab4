//! Frames of the peer protocol: a payload behind its length.
//!
//! A frame is the length of the payload as eight bytes, most significant
//! first, and then the payload. The inode counter travels without a frame,
//! as four bytes, most significant first.

use crate::abi::{read_u32, read_u64, word32, word64, Endian};
use crate::bytes::append_bytes;
use vstd::prelude::*;
use vstd::slice::slice_subrange;

verus! {

/// Number of bytes of the length that opens a frame.
pub const LENGTH_SIZE: usize = 8;

/// Why bytes read from a peer do not hold a frame.
#[derive(Debug, Clone, Copy, PartialEq, Eq, Structural)]
pub enum FrameError {
    /// The bytes end before the length does; holds the number of bytes
    /// seen.
    ShortLength(usize),
    /// The bytes end before the payload does: bytes of payload present,
    /// then bytes announced.
    ShortPayload(usize, u64),
}

/// The eight bytes that stand for `n`, most significant first.
#[verifier::opaque]
pub open spec fn be_bytes64(n: u64) -> Seq<u8> {
    seq![
        (n / 0x100_0000_0000_0000) as u8,
        (n / 0x1_0000_0000_0000 % 0x100) as u8,
        (n / 0x100_0000_0000 % 0x100) as u8,
        (n / 0x1_0000_0000 % 0x100) as u8,
        (n / 0x100_0000 % 0x100) as u8,
        (n / 0x1_0000 % 0x100) as u8,
        (n / 0x100 % 0x100) as u8,
        (n % 0x100) as u8,
    ]
}

/// The four bytes that stand for `n`, most significant first.
#[verifier::opaque]
pub open spec fn be_bytes32(n: u32) -> Seq<u8> {
    seq![
        (n / 0x100_0000) as u8,
        (n / 0x1_0000 % 0x100) as u8,
        (n / 0x100 % 0x100) as u8,
        (n % 0x100) as u8,
    ]
}

/// The frame that carries `payload`.
pub open spec fn spec_frame(payload: Seq<u8>) -> Seq<u8> {
    be_bytes64(payload.len() as u64) + payload
}

/// The pieces of `pieces`, one behind the other.
pub open spec fn joined(pieces: Seq<Seq<u8>>) -> Seq<u8>
    decreases pieces.len(),
{
    if pieces.len() == 0 {
        Seq::empty()
    } else {
        joined(pieces.drop_last()) + pieces.last()
    }
}

/// The payload of the frame at the front of `bytes` and what follows the
/// frame, or the reason why `bytes` holds no whole frame.
pub open spec fn spec_unframe(bytes: Seq<u8>) -> Result<(Seq<u8>, Seq<u8>), FrameError> {
    let announced = word64(bytes, 0, Endian::Big);
    if bytes.len() < LENGTH_SIZE {
        Err(FrameError::ShortLength(bytes.len() as usize))
    } else if bytes.len() - LENGTH_SIZE < announced {
        Err(FrameError::ShortPayload((bytes.len() - LENGTH_SIZE) as usize, announced))
    } else {
        Ok(
            (
                bytes.subrange(LENGTH_SIZE as int, LENGTH_SIZE + announced),
                bytes.skip(LENGTH_SIZE + announced),
            ),
        )
    }
}

/// Reading the eight bytes of a number gives the number back.
pub proof fn lemma_be_bytes64_round_trip(n: u64)
    ensures
        be_bytes64(n).len() == 8,
        word64(be_bytes64(n), 0, Endian::Big) == n,
{
    reveal(be_bytes64);
    let b0: u64 = n / 0x100_0000_0000_0000;
    let b1: u64 = n / 0x1_0000_0000_0000 % 0x100;
    let b2: u64 = n / 0x100_0000_0000 % 0x100;
    let b3: u64 = n / 0x1_0000_0000 % 0x100;
    let b4: u64 = n / 0x100_0000 % 0x100;
    let b5: u64 = n / 0x1_0000 % 0x100;
    let b6: u64 = n / 0x100 % 0x100;
    let b7: u64 = n % 0x100;
    assert(b7 + b6 * 0x100 + b5 * 0x1_0000 + b4 * 0x100_0000 + (b3 + b2 * 0x100 + b1 * 0x1_0000
        + b0 * 0x100_0000) * 0x1_0000_0000 == n && b0 < 0x100) by (bit_vector)
        requires
            b0 == n / 0x100_0000_0000_0000,
            b1 == n / 0x1_0000_0000_0000 % 0x100,
            b2 == n / 0x100_0000_0000 % 0x100,
            b3 == n / 0x1_0000_0000 % 0x100,
            b4 == n / 0x100_0000 % 0x100,
            b5 == n / 0x1_0000 % 0x100,
            b6 == n / 0x100 % 0x100,
            b7 == n % 0x100,
    ;
    let s = be_bytes64(n);
    assert(s[0] == b0 && s[1] == b1 && s[2] == b2 && s[3] == b3);
    assert(s[4] == b4 && s[5] == b5 && s[6] == b6 && s[7] == b7);
    assert(word32(s, 0, Endian::Big) == b3 + b2 * 0x100 + b1 * 0x1_0000 + b0 * 0x100_0000);
    assert(word32(s, 4, Endian::Big) == b7 + b6 * 0x100 + b5 * 0x1_0000 + b4 * 0x100_0000);
}

/// Reading the four bytes of a number gives the number back.
pub proof fn lemma_be_bytes32_round_trip(n: u32)
    ensures
        be_bytes32(n).len() == 4,
        word32(be_bytes32(n), 0, Endian::Big) == n,
{
    reveal(be_bytes32);
}

/// Taking a frame apart gives back the payload that it was made of, and
/// what stood behind the frame.
pub proof fn lemma_frame_round_trip(payload: Seq<u8>, rest: Seq<u8>)
    requires
        payload.len() <= u64::MAX,
    ensures
        spec_unframe(spec_frame(payload) + rest) == Ok::<(Seq<u8>, Seq<u8>), FrameError>(
            (payload, rest),
        ),
{
    let n = payload.len() as u64;
    let bytes = spec_frame(payload) + rest;
    lemma_be_bytes64_round_trip(n);
    assert forall|i: int| 0 <= i < 8 implies bytes[i] == be_bytes64(n)[i] by {}
    assert(word64(bytes, 0, Endian::Big) == word64(be_bytes64(n), 0, Endian::Big));
    assert(bytes.subrange(LENGTH_SIZE as int, LENGTH_SIZE + n) =~= payload);
    assert(bytes.skip(LENGTH_SIZE + n) =~= rest);
}

/// Appends the eight bytes of `n` to `out`.
pub fn put_u64(out: &mut Vec<u8>, n: u64)
    ensures
        final(out)@ == old(out)@ + be_bytes64(n),
{
    out.push((n / 0x100_0000_0000_0000) as u8);
    out.push((n / 0x1_0000_0000_0000 % 0x100) as u8);
    out.push((n / 0x100_0000_0000 % 0x100) as u8);
    out.push((n / 0x1_0000_0000 % 0x100) as u8);
    out.push((n / 0x100_0000 % 0x100) as u8);
    out.push((n / 0x1_0000 % 0x100) as u8);
    out.push((n / 0x100 % 0x100) as u8);
    out.push((n % 0x100) as u8);
    assert(out@ =~= old(out)@ + be_bytes64(n)) by {
        reveal(be_bytes64);
    }
}

/// Appends the four bytes of `n` to `out`.
pub fn put_u32(out: &mut Vec<u8>, n: u32)
    ensures
        final(out)@ == old(out)@ + be_bytes32(n),
{
    out.push((n / 0x100_0000) as u8);
    out.push((n / 0x1_0000 % 0x100) as u8);
    out.push((n / 0x100 % 0x100) as u8);
    out.push((n % 0x100) as u8);
    assert(out@ =~= old(out)@ + be_bytes32(n)) by {
        reveal(be_bytes32);
    }
}

/// The four bytes that carry the number `n` to a peer.
pub fn write_u32(n: u32) -> (bytes: Vec<u8>)
    ensures
        bytes@ == be_bytes32(n),
{
    let mut bytes: Vec<u8> = Vec::new();
    put_u32(&mut bytes, n);
    assert(bytes@ =~= be_bytes32(n));
    bytes
}

/// The number that the four bytes `bytes` carry, or `None` if `bytes` is
/// not four bytes long.
pub fn read_u32_reply(bytes: &[u8]) -> (n: Option<u32>)
    ensures
        n == if bytes@.len() == 4 {
            Some(word32(bytes@, 0, Endian::Big))
        } else {
            None
        },
{
    if bytes.len() == 4 {
        assert(bytes@.skip(0) =~= bytes@);
        Some(read_u32(bytes, 0, 0, Endian::Big))
    } else {
        None
    }
}

/// The frame that carries `payload`.
pub fn write_message(payload: &[u8]) -> (frame: Vec<u8>)
    ensures
        frame@ == spec_frame(payload@),
{
    let mut frame: Vec<u8> = Vec::new();
    put_u64(&mut frame, payload.len() as u64);
    append_bytes(&mut frame, payload);
    assert(frame@ =~= spec_frame(payload@));
    frame
}

/// The one frame that carries the pieces of `pieces`, in their order, as
/// one payload.
pub fn write_message_vector(pieces: &Vec<Vec<u8>>) -> (frame: Vec<u8>)
    ensures
        frame@ == spec_frame(joined(crate::dispatch::pieces_view(pieces@))),
{
    let ghost views = crate::dispatch::pieces_view(pieces@);
    let mut payload: Vec<u8> = Vec::new();
    let mut i: usize = 0;
    while i < pieces.len()
        invariant
            i <= pieces.len(),
            views == crate::dispatch::pieces_view(pieces@),
            payload@ == joined(views.take(i as int)),
        decreases pieces.len() - i,
    {
        append_bytes(&mut payload, pieces[i].as_slice());
        proof {
            let next = views.take(i + 1);
            assert(next.drop_last() =~= views.take(i as int));
            assert(next.last() == pieces@[i as int]@);
        }
        i = i + 1;
    }
    assert(views.take(pieces.len() as int) =~= views);
    write_message(payload.as_slice())
}

/// Takes the frame at the front of `bytes` apart: returns its payload and
/// what follows the frame, or says why `bytes` holds no whole frame.
pub fn read_message<'a>(bytes: &'a [u8]) -> (r: Result<(&'a [u8], &'a [u8]), FrameError>)
    ensures
        match r {
            Ok((payload, rest)) => spec_unframe(bytes@) == Ok::<(Seq<u8>, Seq<u8>), FrameError>(
                (payload@, rest@),
            ),
            Err(e) => spec_unframe(bytes@) == Err::<(Seq<u8>, Seq<u8>), FrameError>(e),
        },
{
    let len = bytes.len();
    if len < LENGTH_SIZE {
        return Err(FrameError::ShortLength(len));
    }
    assert(bytes@.skip(0) =~= bytes@);
    let announced = read_u64(bytes, 0, 0, Endian::Big);
    let present = len - LENGTH_SIZE;
    if (present as u64) < announced {
        return Err(FrameError::ShortPayload(present, announced));
    }
    let end = LENGTH_SIZE + announced as usize;
    let payload = slice_subrange(bytes, LENGTH_SIZE, end);
    let rest = slice_subrange(bytes, end, len);
    Ok((payload, rest))
}

} // verus!
