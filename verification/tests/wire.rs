use fuse_node::connection::{answer, read_request, write_reply, write_request, PeerError};
use fuse_node::dispatch::{Handler, Outcome, Reply};
use fuse_node::payload::{serialize_request, serialize_response};
use fuse_node::peer::{DistRequest, OpArgs, Response};
use fuse_node::wire::{
    put_u32, put_u64, read_message, read_u32_reply, write_message, write_message_vector,
    write_u32, FrameError,
};

#[test]
fn frame_of_a_payload() {
    assert_eq!(write_message(b"abc"), vec![0, 0, 0, 0, 0, 0, 0, 3, b'a', b'b', b'c']);
    assert_eq!(write_message(b""), vec![0, 0, 0, 0, 0, 0, 0, 0]);
    let long = vec![0x5a_u8; 0x1_02_03];
    let frame = write_message(&long);
    assert_eq!(&frame[..8], &[0, 0, 0, 0, 0, 1, 2, 3]);
    assert_eq!(&frame[8..], &long[..]);
}

#[test]
fn frame_of_pieces_keeps_their_order() {
    let pieces = vec![b"ab".to_vec(), Vec::new(), b"c".to_vec(), b"def".to_vec()];
    assert_eq!(write_message_vector(&pieces), write_message(b"abcdef"));
    assert_eq!(write_message_vector(&Vec::new()), write_message(b""));
}

#[test]
fn frame_is_read_back() {
    let mut bytes = write_message(b"hello");
    bytes.extend_from_slice(b"more");
    let (payload, rest) = read_message(&bytes).unwrap();
    assert_eq!(payload, b"hello");
    assert_eq!(rest, b"more");
    let empty = write_message(b"");
    let (payload, rest) = read_message(&empty).unwrap();
    assert!(payload.is_empty());
    assert!(rest.is_empty());
}

#[test]
fn short_frames_are_refused() {
    assert_eq!(read_message(b""), Err(FrameError::ShortLength(0)));
    assert_eq!(read_message(&[0, 0, 0, 0, 0, 0, 0]), Err(FrameError::ShortLength(7)));
    assert_eq!(
        read_message(&[0, 0, 0, 0, 0, 0, 0, 4, 1, 2, 3]),
        Err(FrameError::ShortPayload(3, 4))
    );
    assert_eq!(
        read_message(&[0xff, 0xff, 0xff, 0xff, 0xff, 0xff, 0xff, 0xff]),
        Err(FrameError::ShortPayload(0, u64::MAX))
    );
}

#[test]
fn numbers_most_significant_byte_first() {
    let mut out = vec![9u8];
    put_u64(&mut out, 0x0102_0304_0506_0708);
    put_u32(&mut out, 0xdead_beef);
    assert_eq!(out, vec![9, 1, 2, 3, 4, 5, 6, 7, 8, 0xde, 0xad, 0xbe, 0xef]);
    assert_eq!(write_u32(0x0a0b_0c0d), vec![0x0a, 0x0b, 0x0c, 0x0d]);
    assert_eq!(write_u32(0), vec![0, 0, 0, 0]);
}

#[test]
fn inode_number_round_trip() {
    for n in [0u32, 1, 255, 256, 0x1234_5678, u32::MAX] {
        assert_eq!(read_u32_reply(&write_u32(n)), Some(n));
    }
    assert_eq!(read_u32_reply(&[1, 2, 3]), None);
    assert_eq!(read_u32_reply(&[1, 2, 3, 4, 5]), None);
}

#[test]
fn request_survives_the_wire() {
    let request = DistRequest::Read(OpArgs { file_name: b"blob".to_vec(), index: 3 });
    let mut bytes = write_request(&request);
    assert_eq!(bytes, write_message(&serialize_request(&request)));
    bytes.extend_from_slice(b"whatever follows");
    match read_request(&bytes) {
        Ok(DistRequest::Read(args)) => {
            assert_eq!(args.file_name, b"blob");
            assert_eq!(args.index, 3);
        }
        other => panic!("unexpected request {:?}", other),
    }
}

#[test]
fn errors_of_a_connection() {
    assert!(matches!(read_request(b""), Err(PeerError::TransportClosed)));
    assert!(matches!(
        read_request(&[0, 0, 0]),
        Err(PeerError::Framing(FrameError::ShortLength(3)))
    ));
    assert!(matches!(
        read_request(&[0, 0, 0, 0, 0, 0, 0, 2, 0]),
        Err(PeerError::Framing(FrameError::ShortPayload(1, 2)))
    ));
    // A frame whose payload names no kind of request.
    assert!(matches!(read_request(&write_message(&[200])), Err(PeerError::Decode)));
    // A frame without payload.
    assert!(matches!(read_request(&write_message(b"")), Err(PeerError::Decode)));
    // A request with a byte too many in its payload.
    assert!(matches!(read_request(&write_message(&[0, 0])), Err(PeerError::Decode)));
    assert!(matches!(
        answer(Handler::Rename, Outcome::InodeNumber(1)),
        Err(PeerError::Dispatch(Handler::Rename))
    ));
}

#[test]
fn replies_on_the_wire() {
    assert_eq!(
        write_reply(&Reply::Message(Response::Invalidate)),
        write_message(&serialize_response(&Response::Invalidate))
    );
    assert_eq!(
        write_reply(&Reply::Blocks(vec![b"ab".to_vec(), b"cd".to_vec()])),
        write_message(b"abcd")
    );
    assert_eq!(write_reply(&Reply::Number(0x0102_0304)), vec![1, 2, 3, 4]);
    assert_eq!(answer(Handler::GetInodeNum, Outcome::InodeNumber(7)), Ok(vec![0, 0, 0, 7]));
    assert_eq!(
        answer(Handler::Read, Outcome::Blocks(vec![b"x".to_vec()])),
        Ok(write_message(b"x"))
    );
    assert_eq!(
        answer(Handler::Invalidate, Outcome::Done),
        Ok(write_message(&serialize_response(&Response::Invalidate)))
    );
}
