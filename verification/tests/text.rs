use fuse_node::abi::{Abi, Endian};
use fuse_node::error::RequestError;
use fuse_node::request::Request;
use fuse_node::text::decimal;

#[test]
fn decimal_digits_of_numbers() {
    assert_eq!(decimal(0), "0");
    assert_eq!(decimal(7), "7");
    assert_eq!(decimal(10), "10");
    assert_eq!(decimal(40), "40");
    assert_eq!(decimal(1_000_000), "1000000");
    assert_eq!(decimal(4_294_967_295), "4294967295");
    assert_eq!(decimal(u64::MAX), "18446744073709551615");
}

#[test]
fn messages_of_decode_errors() {
    assert_eq!(
        RequestError::ShortReadHeader(20).message(),
        "Short read of FUSE request header (20 < 40)"
    );
    assert_eq!(
        RequestError::UnknownOperation(0xFFFF_FFFF).message(),
        "Unknown FUSE opcode (4294967295)"
    );
    assert_eq!(
        RequestError::ShortRead(48, 56).message(),
        "Short read of FUSE request (48 < 56)"
    );
    assert_eq!(RequestError::InsufficientData.message(), "Insufficient argument data");
}

#[test]
fn message_of_a_decoding_that_failed() {
    let abi = Abi { endian: Endian::Little, macos: false };
    let error = Request::try_from(&[0u8; 0][..], abi).unwrap_err();
    assert_eq!(error.message(), "Short read of FUSE request header (0 < 40)");
}
