use fuse_node::abi::{Abi, Endian};
use fuse_node::error::RequestError;
use fuse_node::request::{Operation, Request};

const LITTLE: Abi = Abi { endian: Endian::Little, macos: false };
const BIG: Abi = Abi { endian: Endian::Big, macos: false };
const LITTLE_MACOS: Abi = Abi { endian: Endian::Little, macos: true };

const INIT_REQUEST_BE: [u8; 56] = [
    0x00, 0x00, 0x00, 0x38, 0x00, 0x00, 0x00, 0x1a, // len, opcode
    0xde, 0xad, 0xbe, 0xef, 0xba, 0xad, 0xf0, 0x0d, // unique
    0x11, 0x22, 0x33, 0x44, 0x55, 0x66, 0x77, 0x88, // nodeid
    0xc0, 0x01, 0xd0, 0x0d, 0xc0, 0x01, 0xca, 0xfe, // uid, gid
    0xc0, 0xde, 0xba, 0x5e, 0x00, 0x00, 0x00, 0x00, // pid, padding
    0x00, 0x00, 0x00, 0x07, 0x00, 0x00, 0x00, 0x08, // major, minor
    0x00, 0x00, 0x10, 0x00, 0x00, 0x00, 0x00, 0x00, // max_readahead, flags
];

const INIT_REQUEST: [u8; 56] = [
    0x38, 0x00, 0x00, 0x00, 0x1a, 0x00, 0x00, 0x00, // len, opcode
    0x0d, 0xf0, 0xad, 0xba, 0xef, 0xbe, 0xad, 0xde, // unique
    0x88, 0x77, 0x66, 0x55, 0x44, 0x33, 0x22, 0x11, // nodeid
    0x0d, 0xd0, 0x01, 0xc0, 0xfe, 0xca, 0x01, 0xc0, // uid, gid
    0x5e, 0xba, 0xde, 0xc0, 0x00, 0x00, 0x00, 0x00, // pid, padding
    0x07, 0x00, 0x00, 0x00, 0x08, 0x00, 0x00, 0x00, // major, minor
    0x00, 0x10, 0x00, 0x00, 0x00, 0x00, 0x00, 0x00, // max_readahead, flags
];

const MKNOD_REQUEST_BE: [u8; 56] = [
    0x00, 0x00, 0x00, 0x38, 0x00, 0x00, 0x00, 0x08, // len, opcode
    0xde, 0xad, 0xbe, 0xef, 0xba, 0xad, 0xf0, 0x0d, // unique
    0x11, 0x22, 0x33, 0x44, 0x55, 0x66, 0x77, 0x88, // nodeid
    0xc0, 0x01, 0xd0, 0x0d, 0xc0, 0x01, 0xca, 0xfe, // uid, gid
    0xc0, 0xde, 0xba, 0x5e, 0x00, 0x00, 0x00, 0x00, // pid, padding
    0x00, 0x00, 0x01, 0xa4, 0x00, 0x00, 0x00, 0x00, // mode, rdev
    0x66, 0x6f, 0x6f, 0x2e, 0x74, 0x78, 0x74, 0x00, // name
];

const MKNOD_REQUEST: [u8; 56] = [
    0x38, 0x00, 0x00, 0x00, 0x08, 0x00, 0x00, 0x00, // len, opcode
    0x0d, 0xf0, 0xad, 0xba, 0xef, 0xbe, 0xad, 0xde, // unique
    0x88, 0x77, 0x66, 0x55, 0x44, 0x33, 0x22, 0x11, // nodeid
    0x0d, 0xd0, 0x01, 0xc0, 0xfe, 0xca, 0x01, 0xc0, // uid, gid
    0x5e, 0xba, 0xde, 0xc0, 0x00, 0x00, 0x00, 0x00, // pid, padding
    0xa4, 0x01, 0x00, 0x00, 0x00, 0x00, 0x00, 0x00, // mode, rdev
    0x66, 0x6f, 0x6f, 0x2e, 0x74, 0x78, 0x74, 0x00, // name
];

const SETATTR_REQUEST: [u8; 168] = [
    168, 0, 0, 0, 4, 0, 0, 0, 3, 0, 0, 0, 0, 0, 0, 0, 9, 0, 0, 0, 0, 0, 0, 0, 246, 1, 0, 0, 20, 0,
    0, 0, 200, 92, 0, 0, 168, 225, 255, 21, 0, 0, 0, 16, 160, 225, 255, 21, 2, 130, 0, 0, 0, 0, 0,
    0, 1, 0, 0, 0, 0, 0, 0, 0, 58, 8, 0, 0, 0, 0, 0, 0, 246, 1, 0, 0, 20, 0, 0, 0, 164, 129, 0, 0,
    0, 0, 0, 0, 0, 0, 0, 0, 5, 0, 72, 0, 4, 2, 8, 0, 10, 34, 8, 0, 8, 32, 40, 0, 5, 0, 8, 0, 13,
    40, 8, 0, 108, 111, 103, 46, 116, 120, 116, 0, 150, 179, 82, 2, 1, 0, 0, 0, 40, 126, 2, 0, 0,
    0, 0, 0, 0, 16, 3, 0, 128, 79, 218, 131, 255, 255, 255, 255, 0, 0, 0, 0, 188, 116, 5, 0, 0, 0,
    0, 0, 126, 150, 20, 0,
];

fn debug_attr(req: &Request) {
    println!("{}", req.header().len);
    println!("{}", req.header().opcode);
    println!("{}", req.unique());
    println!("{}", req.nodeid());
    println!("{}", req.uid());
    println!("{}", req.gid());
    match req.operation() {
        Operation::SetAttr { arg } => {
            let valid_bits = format!("{:b}", arg.valid);
            println!("{}", valid_bits);
            println!("{:?}", arg);
        }
        _ => panic!("Unexpected request operation"),
    }
}

#[test]
fn setattr() {
    let bit = 1 << 7;
    let v = 268435456;
    println!(
        "{:#x}={:#b}={} {:b} {:x}",
        v, v, v, bit, 18446744071626706816u64
    );

    let reqs: Vec<[u8; 168]> = vec![SETATTR_REQUEST];
    for sr in reqs {
        let req = Request::try_from(&sr[..], LITTLE).unwrap();
        debug_attr(&req);
        let req = Request::try_from(&sr[..], LITTLE_MACOS).unwrap();
        debug_attr(&req);
    }
}

#[test]
fn setattr_fields() {
    let req = Request::try_from(&SETATTR_REQUEST[..], LITTLE_MACOS).unwrap();
    assert_eq!(req.header().len, 168);
    assert_eq!(req.header().opcode, 4);
    assert_eq!(req.unique(), 3);
    assert_eq!(req.nodeid(), 9);
    assert_eq!(req.uid(), 502);
    assert_eq!(req.gid(), 20);
    assert_eq!(req.pid(), 23752);
    match req.operation() {
        Operation::SetAttr { arg } => {
            assert_eq!(arg.valid, 268435456);
            assert_eq!(arg.padding, 0x15ff_e1a0);
            assert_eq!(arg.fh, 0x8202);
            assert_eq!(arg.size, 1);
            assert_eq!(arg.unused1, 0x083a);
            assert_eq!(arg.atime, 0x0000_0014_0000_01f6);
            assert_eq!(arg.mtime, 0x81a4);
            assert_eq!(arg.unused2, 0x0048_0005_0000_0000);
            assert_eq!(arg.atimensec, 0x0008_0204);
            assert_eq!(arg.mtimensec, 0x0008_220a);
            assert_eq!(arg.unused3, 0x0028_2008);
            assert_eq!(arg.mode, 0x0008_0005);
            assert_eq!(arg.unused4, 0x0008_280d);
            assert_eq!(arg.uid, 0x2e67_6f6c);
            assert_eq!(arg.gid, 0x0074_7874);
            assert_eq!(arg.unused5, 0x0252_b396);
            assert_eq!(arg.bkuptime, 0x0002_7e28_0000_0001);
            assert_eq!(arg.chgtime, 0x0003_1000_0000_0000);
            assert_eq!(arg.crtime, 0xffff_ffff_83da_4f80);
            assert_eq!(arg.crtime, 18446744071626706816u64);
            assert_eq!(arg.bkuptimensec, 0);
            assert_eq!(arg.chgtimensec, 0x0005_74bc);
            assert_eq!(arg.crtimensec, 0);
            assert_eq!(arg.flags, 0x0014_967e);
        }
        _ => panic!("Unexpected request operation"),
    }
}

#[test]
fn setattr_without_macos_fields() {
    let req = Request::try_from(&SETATTR_REQUEST[..], LITTLE).unwrap();
    match req.operation() {
        Operation::SetAttr { arg } => {
            assert_eq!(arg.valid, 268435456);
            assert_eq!(arg.unused5, 0x0252_b396);
            assert_eq!(arg.bkuptime, 0);
            assert_eq!(arg.chgtime, 0);
            assert_eq!(arg.crtime, 0);
            assert_eq!(arg.bkuptimensec, 0);
            assert_eq!(arg.chgtimensec, 0);
            assert_eq!(arg.crtimensec, 0);
            assert_eq!(arg.flags, 0);
        }
        _ => panic!("Unexpected request operation"),
    }
}

#[test]
fn short_read_header() {
    match Request::try_from(&INIT_REQUEST[..20], LITTLE) {
        Err(RequestError::ShortReadHeader(20)) => (),
        _ => panic!("Unexpected request parsing result"),
    }
    match Request::try_from(&INIT_REQUEST_BE[..20], BIG) {
        Err(RequestError::ShortReadHeader(20)) => (),
        _ => panic!("Unexpected request parsing result"),
    }
}

#[test]
fn short_read() {
    match Request::try_from(&INIT_REQUEST[..48], LITTLE) {
        Err(RequestError::ShortRead(48, 56)) => (),
        _ => panic!("Unexpected request parsing result"),
    }
    match Request::try_from(&INIT_REQUEST_BE[..48], BIG) {
        Err(RequestError::ShortRead(48, 56)) => (),
        _ => panic!("Unexpected request parsing result"),
    }
}

fn check_init(req: &Request) {
    assert_eq!(req.header().len, 56);
    assert_eq!(req.header().opcode, 26);
    assert_eq!(req.unique(), 0xdead_beef_baad_f00d);
    assert_eq!(req.nodeid(), 0x1122_3344_5566_7788);
    assert_eq!(req.uid(), 0xc001_d00d);
    assert_eq!(req.gid(), 0xc001_cafe);
    assert_eq!(req.pid(), 0xc0de_ba5e);
    match req.operation() {
        Operation::Init { arg } => {
            assert_eq!(arg.major, 7);
            assert_eq!(arg.minor, 8);
            assert_eq!(arg.max_readahead, 4096);
            assert_eq!(arg.flags, 0);
        }
        _ => panic!("Unexpected request operation"),
    }
}

#[test]
fn init() {
    let req = Request::try_from(&INIT_REQUEST[..], LITTLE).unwrap();
    check_init(&req);
    let req = Request::try_from(&INIT_REQUEST_BE[..], BIG).unwrap();
    check_init(&req);
}

fn check_mknod(req: &Request) {
    assert_eq!(req.header().len, 56);
    assert_eq!(req.header().opcode, 8);
    assert_eq!(req.unique(), 0xdead_beef_baad_f00d);
    assert_eq!(req.nodeid(), 0x1122_3344_5566_7788);
    assert_eq!(req.uid(), 0xc001_d00d);
    assert_eq!(req.gid(), 0xc001_cafe);
    assert_eq!(req.pid(), 0xc0de_ba5e);
    match req.operation() {
        Operation::MkNod { arg, name } => {
            assert_eq!(arg.mode, 0o644);
            assert_eq!(arg.rdev, 0);
            assert_eq!(*name, "foo.txt".as_bytes());
        }
        _ => panic!("Unexpected request operation"),
    }
}

#[test]
fn mknod() {
    let req = Request::try_from(&MKNOD_REQUEST[..], LITTLE).unwrap();
    check_mknod(&req);
    let req = Request::try_from(&MKNOD_REQUEST_BE[..], BIG).unwrap();
    check_mknod(&req);
}

#[test]
fn unknown_opcode() {
    let mut packet = INIT_REQUEST;
    packet[4..8].copy_from_slice(&[0xff, 0xff, 0xff, 0xff]);
    match Request::try_from(&packet[..], LITTLE) {
        Err(RequestError::UnknownOperation(0xFFFF_FFFF)) => (),
        _ => panic!("Unexpected request parsing result"),
    }
    match Request::try_from(&packet[..], BIG) {
        Err(RequestError::UnknownOperation(0xFFFF_FFFF)) => (),
        _ => panic!("Unexpected request parsing result"),
    }
}

#[test]
fn unknown_opcode_is_reported_before_short_read() {
    let mut packet = INIT_REQUEST;
    packet[4] = 7;
    match Request::try_from(&packet[..48], LITTLE) {
        Err(RequestError::UnknownOperation(7)) => (),
        _ => panic!("Unexpected request parsing result"),
    }
}

#[test]
fn wrong_byte_order_is_a_short_read() {
    // Read as big endian, the length field of the little-endian packet is
    // 0x38000000.
    match Request::try_from(&INIT_REQUEST[..], BIG) {
        Err(RequestError::UnknownOperation(0x1a00_0000)) => (),
        _ => panic!("Unexpected request parsing result"),
    }
    let mut packet = INIT_REQUEST;
    packet[4..8].copy_from_slice(&[0, 0, 0, 0x1a]);
    match Request::try_from(&packet[..], BIG) {
        Err(RequestError::ShortRead(56, 0x3800_0000)) => (),
        _ => panic!("Unexpected request parsing result"),
    }
}

#[test]
fn macos_opcodes_are_unknown_elsewhere() {
    let mut packet = [0u8; 48];
    packet[0] = 48;
    packet[4] = 61;
    packet[40..44].copy_from_slice(b"Vol\0");
    match Request::try_from(&packet[..], LITTLE) {
        Err(RequestError::UnknownOperation(61)) => (),
        _ => panic!("Unexpected request parsing result"),
    }
    let req = Request::try_from(&packet[..], LITTLE_MACOS).unwrap();
    match req.operation() {
        Operation::SetVolName { name } => assert_eq!(*name, b"Vol"),
        _ => panic!("Unexpected request operation"),
    }
}

#[test]
fn insufficient_data_when_the_record_does_not_fit() {
    let mut packet = INIT_REQUEST;
    packet[0] = 52;
    match Request::try_from(&packet[..], LITTLE) {
        Err(RequestError::InsufficientData) => (),
        _ => panic!("Unexpected request parsing result"),
    }
}

#[test]
fn insufficient_data_when_the_name_has_no_end() {
    let mut packet = MKNOD_REQUEST;
    packet[55] = b'!';
    match Request::try_from(&packet[..], LITTLE) {
        Err(RequestError::InsufficientData) => (),
        _ => panic!("Unexpected request parsing result"),
    }
}

#[test]
fn name_must_end_inside_the_announced_length() {
    // The NUL is in the buffer but behind the length that the header gives.
    let mut packet = MKNOD_REQUEST;
    packet[0] = 55;
    match Request::try_from(&packet[..], LITTLE) {
        Err(RequestError::InsufficientData) => (),
        _ => panic!("Unexpected request parsing result"),
    }
}

#[test]
fn announced_length_below_the_header_leaves_no_arguments() {
    let mut packet = [0u8; 40];
    packet[0] = 39;
    packet[4] = 3;
    match Request::try_from(&packet[..], LITTLE) {
        Err(RequestError::InsufficientData) => (),
        _ => panic!("Unexpected request parsing result"),
    }
    packet[0] = 40;
    let req = Request::try_from(&packet[..], LITTLE).unwrap();
    assert!(matches!(req.operation(), Operation::GetAttr));
}

#[test]
fn write_data_stops_at_the_announced_length() {
    let mut packet = vec![0u8; 40 + 24];
    packet[0] = 40 + 24 + 3;
    packet[4] = 16;
    packet[40] = 5; // fh
    packet[48] = 9; // offset
    packet[56] = 3; // size
    packet[60] = 1; // write flags
    packet.extend_from_slice(b"abcXYZ");
    let req = Request::try_from(&packet[..], LITTLE).unwrap();
    match req.operation() {
        Operation::Write { arg, data } => {
            assert_eq!(arg.fh, 5);
            assert_eq!(arg.offset, 9);
            assert_eq!(arg.size, 3);
            assert_eq!(arg.write_flags, 1);
            assert_eq!(*data, b"abc");
        }
        _ => panic!("Unexpected request operation"),
    }
}

#[test]
fn rename_reads_two_names() {
    let mut packet = vec![0u8; 40];
    packet[4] = 12;
    packet.extend_from_slice(&[0x22, 0x11, 0, 0, 0, 0, 0, 0]);
    packet.extend_from_slice(b"old\0new name\0");
    packet[0] = packet.len() as u8;
    let req = Request::try_from(&packet[..], LITTLE).unwrap();
    match req.operation() {
        Operation::Rename { arg, name, newname } => {
            assert_eq!(arg.newdir, 0x1122);
            assert_eq!(*name, b"old");
            assert_eq!(*newname, b"new name");
        }
        _ => panic!("Unexpected request operation"),
    }
    // Without the second NUL the second name does not end.
    let last = packet.len() - 1;
    packet[last] = b'x';
    match Request::try_from(&packet[..], LITTLE) {
        Err(RequestError::InsufficientData) => (),
        _ => panic!("Unexpected request parsing result"),
    }
}

#[test]
fn setxattr_reads_name_and_value() {
    let mut packet = vec![0u8; 40];
    packet[4] = 21;
    packet.extend_from_slice(&[2, 0, 0, 0, 1, 0, 0, 0]);
    packet.extend_from_slice(b"user.k\0\x00\xff");
    packet[0] = packet.len() as u8;
    let req = Request::try_from(&packet[..], LITTLE).unwrap();
    match req.operation() {
        Operation::SetXAttr { arg, name, value } => {
            assert_eq!(arg.size, 2);
            assert_eq!(arg.flags, 1);
            assert_eq!(arg.position, 0);
            assert_eq!(*name, b"user.k");
            assert_eq!(*value, b"\x00\xff");
        }
        _ => panic!("Unexpected request operation"),
    }
}

#[test]
fn empty_name_is_a_name() {
    let mut packet = vec![0u8; 41];
    packet[0] = 41;
    packet[4] = 1;
    let req = Request::try_from(&packet[..], LITTLE).unwrap();
    match req.operation() {
        Operation::Lookup { name } => assert!(name.is_empty()),
        _ => panic!("Unexpected request operation"),
    }
}

/// Number of the operation, size of its record on Linux and on macOS,
/// number of its names, and whether data follows.
const SHAPES: [(u32, usize, usize, usize, bool); 39] = [
    (1, 0, 0, 1, false),
    (2, 8, 8, 0, false),
    (3, 0, 0, 0, false),
    (4, 88, 128, 0, false),
    (5, 0, 0, 0, false),
    (6, 0, 0, 2, false),
    (8, 8, 8, 1, false),
    (9, 8, 8, 1, false),
    (10, 0, 0, 1, false),
    (11, 0, 0, 1, false),
    (12, 8, 8, 2, false),
    (13, 8, 8, 1, false),
    (14, 8, 8, 0, false),
    (15, 24, 24, 0, false),
    (16, 24, 24, 0, true),
    (17, 0, 0, 0, false),
    (18, 24, 24, 0, false),
    (20, 16, 16, 0, false),
    (21, 8, 16, 1, true),
    (22, 8, 16, 1, false),
    (23, 8, 16, 0, false),
    (24, 0, 0, 1, false),
    (25, 24, 24, 0, false),
    (26, 16, 16, 0, false),
    (27, 8, 8, 0, false),
    (28, 24, 24, 0, false),
    (29, 24, 24, 0, false),
    (30, 16, 16, 0, false),
    (31, 40, 40, 0, false),
    (32, 40, 40, 0, false),
    (33, 40, 40, 0, false),
    (34, 8, 8, 0, false),
    (35, 8, 8, 1, false),
    (36, 8, 8, 0, false),
    (37, 16, 16, 0, false),
    (38, 0, 0, 0, false),
    (61, 0, 0, 1, false),
    (62, 0, 0, 0, false),
    (63, 24, 24, 2, false),
];

fn packet(code: u32, record: usize, names: usize) -> Vec<u8> {
    let mut packet = vec![0u8; 40];
    packet[4] = code as u8;
    packet.extend(std::iter::repeat(0x11).take(record));
    for i in 0..names {
        packet.extend_from_slice(if i == 0 { b"first" } else { b"second" });
        packet.push(0);
    }
    packet[0] = packet.len() as u8;
    packet
}

fn names_of<'a>(operation: &Operation<'a>) -> Vec<&'a [u8]> {
    match *operation {
        Operation::Lookup { name }
        | Operation::MkNod { name, .. }
        | Operation::MkDir { name, .. }
        | Operation::Unlink { name }
        | Operation::RmDir { name }
        | Operation::Link { name, .. }
        | Operation::SetXAttr { name, .. }
        | Operation::GetXAttr { name, .. }
        | Operation::RemoveXAttr { name }
        | Operation::Create { name, .. }
        | Operation::SetVolName { name } => vec![name],
        Operation::SymLink { name, link } => vec![name, link],
        Operation::Rename { name, newname, .. } => vec![name, newname],
        Operation::Exchange { oldname, newname, .. } => vec![oldname, newname],
        _ => Vec::new(),
    }
}

#[test]
fn every_operation_takes_what_its_shape_says() {
    for macos in [false, true] {
        let abi = Abi { endian: Endian::Little, macos };
        for &(code, linux, darwin, names, tail) in SHAPES.iter() {
            if code > 38 && !macos {
                continue;
            }
            let record = if macos { darwin } else { linux };
            let whole = packet(code, record, names);
            let request = Request::try_from(&whole, abi)
                .unwrap_or_else(|e| panic!("operation {}: {:?}", code, e));
            assert_eq!(request.header().opcode, code);
            let found = names_of(request.operation());
            assert_eq!(found.len(), names, "operation {}", code);
            if names >= 1 {
                assert_eq!(found[0], b"first");
            }
            if names == 2 {
                assert_eq!(found[1], b"second");
            }
            match request.operation() {
                Operation::Write { data, .. } => assert!(tail && data.is_empty()),
                Operation::SetXAttr { value, .. } => assert!(tail && value.is_empty()),
                _ => assert!(!tail),
            }
            // One byte less, and an operation with arguments lacks data.
            if record + names > 0 {
                let mut short = whole.clone();
                short.pop();
                short[0] -= 1;
                assert!(
                    matches!(Request::try_from(&short, abi), Err(RequestError::InsufficientData)),
                    "operation {}",
                    code
                );
            }
        }
    }
}

#[test]
fn operations_name_their_opcode() {
    let abi = Abi { endian: Endian::Big, macos: true };
    for &(code, _, darwin, names, _) in SHAPES.iter() {
        let mut whole = packet(code, darwin, names);
        let len = whole.len() as u8;
        whole[0] = 0;
        whole[3] = len;
        whole[4] = 0;
        whole[7] = code as u8;
        let request = Request::try_from(&whole, abi).unwrap();
        let shown = format!("{:?}", request.operation()).to_uppercase();
        let opcode = fuse_node::opcode::Opcode::from_code(code, true).unwrap();
        let name = format!("{:?}", opcode).to_uppercase();
        assert!(shown.starts_with(&name), "{} does not open {}", name, shown);
    }
}
