//! One connection of a peer, from the bytes that arrive to the bytes that
//! leave: a framed request in, one reply out.

use crate::dispatch::{reply, spec_reply, Handler, Outcome, Reply, ReplyView};
use crate::payload::{
    dec_request, deserialize_cache, enc_request, enc_response, fits_request,
    lemma_request_round_trip, serialize_request, serialize_response, whole,
};
use crate::peer::{DistRequest, DistRequestView};
use crate::wire::{
    be_bytes32, joined, lemma_frame_round_trip, read_message, spec_frame, spec_unframe,
    write_message, write_message_vector, write_u32, FrameError,
};
use vstd::prelude::*;

verus! {

/// Why a connection of a peer was given up.
#[derive(Debug, Clone, Copy, PartialEq, Eq, Structural)]
pub enum PeerError {
    /// The peer closed the connection before it sent anything.
    TransportClosed,
    /// What the peer sent is no whole frame.
    Framing(FrameError),
    /// The payload of the frame is no request.
    Decode,
    /// The work of the handler ended in a way that it cannot end in.
    Dispatch(Handler),
}

/// The request that the bytes `bytes` of a connection carry, or the reason
/// why they carry none. What follows the first frame is not looked at: a
/// connection carries one request.
pub open spec fn spec_read_request(bytes: Seq<u8>) -> Result<DistRequestView, PeerError> {
    if bytes.len() == 0 {
        Err(PeerError::TransportClosed)
    } else {
        match spec_unframe(bytes) {
            Err(e) => Err(PeerError::Framing(e)),
            Ok((payload, _)) => match whole(dec_request(payload)) {
                None => Err(PeerError::Decode),
                Some(request) => Ok(request),
            },
        }
    }
}

/// The bytes that carry a reply to the peer: a response in a frame, the
/// pieces of a block as the payload of one frame, or a number as it is.
pub open spec fn spec_write_reply(reply: ReplyView) -> Seq<u8> {
    match reply {
        ReplyView::Message(response) => spec_frame(enc_response(response)),
        ReplyView::Blocks(pieces) => spec_frame(joined(pieces)),
        ReplyView::Number(n) => be_bytes32(n),
    }
}

/// The bytes that carry `request` to a peer.
pub fn write_request(request: &DistRequest) -> (bytes: Vec<u8>)
    ensures
        bytes@ == spec_frame(enc_request(request@)),
{
    let payload = serialize_request(request);
    write_message(payload.as_slice())
}

/// Reads the one request of a connection from the bytes that arrived.
pub fn read_request(bytes: &[u8]) -> (r: Result<DistRequest, PeerError>)
    ensures
        match r {
            Ok(request) => spec_read_request(bytes@) == Ok::<DistRequestView, PeerError>(
                request@,
            ),
            Err(e) => spec_read_request(bytes@) == Err::<DistRequestView, PeerError>(e),
        },
{
    if bytes.len() == 0 {
        return Err(PeerError::TransportClosed);
    }
    let payload = match read_message(bytes) {
        Ok((payload, _)) => payload,
        Err(e) => return Err(PeerError::Framing(e)),
    };
    match deserialize_cache(payload) {
        Some(request) => Ok(request),
        None => Err(PeerError::Decode),
    }
}

/// The bytes that carry `reply` to the peer.
pub fn write_reply(reply: &Reply) -> (bytes: Vec<u8>)
    ensures
        bytes@ == spec_write_reply(reply@),
{
    match reply {
        Reply::Message(response) => {
            let payload = serialize_response(response);
            write_message(payload.as_slice())
        },
        Reply::Blocks(pieces) => write_message_vector(pieces),
        Reply::Number(n) => write_u32(*n),
    }
}

/// The bytes to write to the peer once `handler` has done its work and
/// `outcome` came back, or the error that ends the connection where the
/// outcome is not one of the handler's.
pub fn answer(handler: Handler, outcome: Outcome) -> (r: Result<Vec<u8>, PeerError>)
    ensures
        match r {
            Ok(bytes) => spec_reply(handler, outcome@) matches Some(reply) && bytes@
                == spec_write_reply(reply),
            Err(e) => spec_reply(handler, outcome@) is None && e == PeerError::Dispatch(handler),
        },
{
    match reply(handler, outcome) {
        Some(reply) => Ok(write_reply(&reply)),
        None => Err(PeerError::Dispatch(handler)),
    }
}

/// A request that was written is read back, whatever arrives behind it.
pub proof fn lemma_request_survives_the_wire(request: DistRequestView, behind: Seq<u8>)
    requires
        fits_request(request),
        enc_request(request).len() <= u64::MAX,
    ensures
        spec_read_request(spec_frame(enc_request(request)) + behind) == Ok::<
            DistRequestView,
            PeerError,
        >(request),
{
    lemma_frame_round_trip(enc_request(request), behind);
    lemma_request_round_trip(request);
    crate::wire::lemma_be_bytes64_round_trip(enc_request(request).len() as u64);
}

} // verus!
