use fuse_node::abi::{read_u32, read_u64, Abi, Endian, InHeader, Record};
use fuse_node::argument::ArgumentIterator;
use fuse_node::opcode::Opcode;
use fuse_node::records::{InitIn, LkIn, SetXAttrIn};
use fuse_node::request::Operation;

const LITTLE: Abi = Abi { endian: Endian::Little, macos: false };
const BIG: Abi = Abi { endian: Endian::Big, macos: false };

#[test]
fn words_in_both_byte_orders() {
    let bytes = [0xaa, 1, 2, 3, 4, 5, 6, 7, 8, 0xbb];
    assert_eq!(read_u32(&bytes, 1, 0, Endian::Little), 0x0403_0201);
    assert_eq!(read_u32(&bytes, 1, 0, Endian::Big), 0x0102_0304);
    assert_eq!(read_u32(&bytes, 0, 5, Endian::Big), 0x0506_0708);
    assert_eq!(read_u64(&bytes, 1, 0, Endian::Little), 0x0807_0605_0403_0201);
    assert_eq!(read_u64(&bytes, 1, 0, Endian::Big), 0x0102_0304_0506_0708);
    assert_eq!(read_u32(&[0xff; 4], 0, 0, Endian::Little), u32::MAX);
    assert_eq!(read_u64(&[0xff; 8], 0, 0, Endian::Big), u64::MAX);
}

#[test]
fn fetch_moves_only_on_success() {
    let bytes: Vec<u8> = (1..=20).collect();
    let mut cursor = ArgumentIterator::new(&bytes);
    assert_eq!(cursor.len(), 20);
    let init: InitIn = cursor.fetch(LITTLE).unwrap();
    assert_eq!(init.major, 0x0403_0201);
    assert_eq!(init.minor, 0x0807_0605);
    assert_eq!(init.max_readahead, 0x0c0b_0a09);
    assert_eq!(init.flags, 0x100f_0e0d);
    assert_eq!(cursor.len(), 4);
    // Too little is left for another record: the cursor stays.
    assert!(cursor.fetch::<InitIn>(LITTLE).is_none());
    assert_eq!(cursor.len(), 4);
    assert!(cursor.fetch_bytes(5).is_none());
    assert_eq!(cursor.len(), 4);
    assert_eq!(cursor.fetch_bytes(3), Some(&[17u8, 18, 19][..]));
    assert_eq!(cursor.fetch_all(), &[20u8][..]);
    assert_eq!(cursor.len(), 0);
    assert_eq!(cursor.fetch_all(), &[0u8; 0][..]);
    assert_eq!(cursor.fetch_bytes(0), Some(&[0u8; 0][..]));
}

#[test]
fn fetch_str_stops_at_the_first_nul() {
    let bytes = b"one\0\0three\0tail";
    let mut cursor = ArgumentIterator::new(bytes);
    assert_eq!(cursor.fetch_str(), Some(&b"one"[..]));
    assert_eq!(cursor.fetch_str(), Some(&b""[..]));
    assert_eq!(cursor.fetch_str(), Some(&b"three"[..]));
    // No NUL is left: nothing is handed out and nothing is passed.
    assert_eq!(cursor.fetch_str(), None);
    assert_eq!(cursor.len(), 4);
    assert_eq!(cursor.fetch_all(), &b"tail"[..]);
    assert_eq!(cursor.fetch_str(), None);
}

#[test]
fn sizes_of_records_by_host() {
    let macos = Abi { endian: Endian::Little, macos: true };
    assert_eq!(InHeader::size(LITTLE), 40);
    assert_eq!(InitIn::size(LITTLE), 16);
    assert_eq!(LkIn::size(BIG), 40);
    assert_eq!(SetXAttrIn::size(LITTLE), 8);
    assert_eq!(SetXAttrIn::size(macos), 16);
    assert_eq!(fuse_node::records::SetAttrIn::size(LITTLE), 88);
    assert_eq!(fuse_node::records::SetAttrIn::size(macos), 128);
    assert_eq!(fuse_node::records::GetXAttrIn::size(macos), 16);
    assert_eq!(fuse_node::records::ExchangeIn::size(macos), 24);
}

#[test]
fn macos_fields_of_setxattr() {
    let macos = Abi { endian: Endian::Big, macos: true };
    let bytes = [0, 0, 0, 1, 0, 0, 0, 2, 0, 0, 0, 3, 0, 0, 0, 4];
    let record = SetXAttrIn::read(&bytes, 0, macos);
    assert_eq!((record.size, record.flags, record.position, record.padding), (1, 2, 3, 4));
    let record = SetXAttrIn::read(&bytes, 0, BIG);
    assert_eq!((record.size, record.flags, record.position, record.padding), (1, 2, 0, 0));
}

#[test]
fn opcodes_and_their_numbers() {
    assert_eq!(Opcode::from_code(1, false), Some(Opcode::Lookup));
    assert_eq!(Opcode::from_code(26, false), Some(Opcode::Init));
    assert_eq!(Opcode::from_code(38, true), Some(Opcode::Destroy));
    assert_eq!(Opcode::from_code(63, true), Some(Opcode::Exchange));
    assert_eq!(Opcode::from_code(63, false), None);
    for unknown in [0u32, 7, 19, 39, 60, 64, 0xFFFF_FFFF] {
        assert_eq!(Opcode::from_code(unknown, true), None);
        assert_eq!(Opcode::from_code(unknown, false), None);
    }
    for code in 0..100u32 {
        if let Some(op) = Opcode::from_code(code, true) {
            assert_eq!(op.number(), code);
        }
    }
    assert_eq!(Opcode::MkNod.number(), 8);
    assert_eq!(Opcode::SetVolName.number(), 61);
}

#[test]
fn parse_over_a_cursor() {
    let bytes = b"\x02\0\0\0\x01\0\0\0name\0value";
    let mut cursor = ArgumentIterator::new(bytes);
    match Operation::parse(Opcode::SetXAttr, &mut cursor, LITTLE) {
        Some(Operation::SetXAttr { arg, name, value }) => {
            assert_eq!(arg.size, 2);
            assert_eq!(arg.flags, 1);
            assert_eq!(name, b"name");
            assert_eq!(value, b"value");
        }
        other => panic!("unexpected operation {:?}", other),
    }
    let mut cursor = ArgumentIterator::new(b"only");
    assert!(Operation::parse(Opcode::Unlink, &mut cursor, LITTLE).is_none());
    let mut cursor = ArgumentIterator::new(b"");
    assert!(matches!(
        Operation::parse(Opcode::Destroy, &mut cursor, LITTLE),
        Some(Operation::Destroy)
    ));
}

#[test]
fn lock_record_holds_the_byte_range() {
    let mut bytes = Vec::new();
    for word in [5u64, 6, 100, 200] {
        bytes.extend_from_slice(&word.to_be_bytes());
    }
    bytes.extend_from_slice(&[0, 0, 0, 1, 0, 0, 0x12, 0x34]);
    let record = LkIn::read(&bytes, 0, BIG);
    assert_eq!(record.fh, 5);
    assert_eq!(record.owner, 6);
    assert_eq!(record.lk.start, 100);
    assert_eq!(record.lk.end, 200);
    assert_eq!(record.lk.typ, 1);
    assert_eq!(record.lk.pid, 0x1234);
    let mut cursor = ArgumentIterator::new(&bytes);
    match Operation::parse(Opcode::SetLkW, &mut cursor, BIG) {
        Some(Operation::SetLkW { arg }) => assert_eq!(arg, record),
        other => panic!("unexpected operation {:?}", other),
    }
}
