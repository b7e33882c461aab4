use fuse_node::abi::{Abi, Endian};
use fuse_node::describe::Piece;
use fuse_node::records::{
    AccessIn, ExchangeIn, InitIn, LinkIn, MkNodIn, ReleaseIn, RenameIn, SetAttrIn, WriteIn,
};
use fuse_node::request::{Operation, Request};
use fuse_node::text::{
    append_aligned, append_decimal, append_hex, append_octal, append_wide_hex, decimal,
};

fn zeroed() -> SetAttrIn {
    SetAttrIn {
        valid: 0,
        padding: 0,
        fh: 0,
        size: 0,
        unused1: 0,
        atime: 0,
        mtime: 0,
        unused2: 0,
        atimensec: 0,
        mtimensec: 0,
        unused3: 0,
        mode: 0,
        unused4: 0,
        uid: 0,
        gid: 0,
        unused5: 0,
        bkuptime: 0,
        chgtime: 0,
        crtime: 0,
        bkuptimensec: 0,
        chgtimensec: 0,
        crtimensec: 0,
        flags: 0,
    }
}

/// The line with each name between double quotes.
fn shown(line: &[Piece]) -> String {
    let mut text = String::new();
    for piece in line {
        match piece {
            Piece::Text(t) => text.push_str(t),
            Piece::Name(n) => text.push_str(&format!("{:?}", String::from_utf8_lossy(n))),
        }
    }
    text
}

const NUMBERS: [u64; 16] = [
    0,
    1,
    7,
    8,
    9,
    10,
    15,
    16,
    63,
    64,
    0o644,
    511,
    512,
    4096,
    0xffff_ffff,
    u64::MAX,
];

#[test]
fn numbers_as_the_standard_library_writes_them() {
    for &n in NUMBERS.iter().chain([99, 100, 999, 1000, 0o100644, 0x1122_3344_5566_7788].iter()) {
        let mut text = String::from("x");
        append_decimal(&mut text, n);
        assert_eq!(text, format!("x{}", n));
        assert_eq!(decimal(n), format!("{}", n));

        let mut text = String::from("x");
        append_hex(&mut text, n);
        assert_eq!(text, format!("x{:#x}", n));

        let mut text = String::from("x");
        append_wide_hex(&mut text, n);
        assert_eq!(text, format!("x{:#018x}", n));

        let mut text = String::from("x");
        append_octal(&mut text, n);
        assert_eq!(text, format!("x{:#05o}", n));

        let mut text = String::from("x");
        append_aligned(&mut text, n);
        assert_eq!(text, format!("x{:3}", n));
    }
}

#[test]
fn exact_text_of_some_numbers() {
    let mut text = String::new();
    append_octal(&mut text, 0o644);
    assert_eq!(text, "0o644");
    let mut text = String::new();
    append_octal(&mut text, 0);
    assert_eq!(text, "0o000");
    let mut text = String::new();
    append_octal(&mut text, 0o100644);
    assert_eq!(text, "0o100644");
    let mut text = String::new();
    append_wide_hex(&mut text, 0x1122);
    assert_eq!(text, "0x0000000000001122");
    let mut text = String::new();
    append_hex(&mut text, 0xdead_beef);
    assert_eq!(text, "0xdeadbeef");
    let mut text = String::new();
    append_aligned(&mut text, 7);
    assert_eq!(text, "  7");
    let mut text = String::new();
    append_aligned(&mut text, 1234);
    assert_eq!(text, "1234");
}

#[test]
fn lines_of_operations() {
    let mknod = Operation::MkNod { arg: MkNodIn { mode: 0o644, rdev: 0 }, name: b"foo.txt" };
    assert_eq!(shown(&mknod.describe()), "MKNOD name \"foo.txt\", mode 0o644, rdev 0");
    assert_eq!(shown(&Operation::GetAttr.describe()), "GETATTR");
    assert_eq!(shown(&Operation::Destroy.describe()), "DESTROY");
    assert_eq!(
        shown(&Operation::Lookup { name: b"a b" }.describe()),
        format!("LOOKUP name {:?}", "a b")
    );
    assert_eq!(
        shown(&Operation::SymLink { name: b"n", link: b"/t" }.describe()),
        "SYMLINK name \"n\", link \"/t\""
    );
    let rename =
        Operation::Rename { arg: RenameIn { newdir: 0x1122 }, name: b"old", newname: b"new" };
    assert_eq!(
        shown(&rename.describe()),
        format!("RENAME name {:?}, newdir {:#018x}, newname {:?}", "old", 0x1122, "new")
    );
    let link = Operation::Link { arg: LinkIn { oldnodeid: u64::MAX }, name: b"l" };
    assert_eq!(shown(&link.describe()), "LINK name \"l\", oldnodeid 0xffffffffffffffff");
    let init = Operation::Init {
        arg: InitIn { major: 7, minor: 8, max_readahead: 4096, flags: 0x1b },
    };
    assert_eq!(
        shown(&init.describe()),
        "INIT kernel ABI 7.8, flags 0x1b, max readahead 4096"
    );
    let write = Operation::Write {
        arg: WriteIn { fh: 3, offset: 4096, size: 5, write_flags: 1 },
        data: b"hello",
    };
    assert_eq!(
        shown(&write.describe()),
        "WRITE fh 3, offset 4096, size 5, write flags 0x1"
    );
    let release = Operation::Release {
        arg: ReleaseIn { fh: 3, flags: 0x8000, release_flags: 0, lock_owner: 12345 },
    };
    assert_eq!(
        shown(&release.describe()),
        format!(
            "RELEASE fh {}, flags {:#x}, release flags {:#x}, lock owner {}",
            3, 0x8000, 0, 12345
        )
    );
    let access = Operation::Access { arg: AccessIn { mask: 4, padding: 0 } };
    assert_eq!(shown(&access.describe()), "ACCESS mask 0o004");
    let exchange = Operation::Exchange {
        arg: ExchangeIn { olddir: 1, newdir: 2, options: 3 },
        oldname: b"a",
        newname: b"b",
    };
    assert_eq!(
        shown(&exchange.describe()),
        format!(
            "EXCHANGE olddir {:#018x}, oldname {:?}, newdir {:#018x}, newname {:?}, options {:#x}",
            1, "a", 2, "b", 3
        )
    );
}

#[test]
fn names_are_handed_over_as_they_are() {
    let odd = Operation::Unlink { name: b"\xff\x00\"" };
    match &odd.describe()[..] {
        [Piece::Text(text), Piece::Name(name)] => {
            assert_eq!(text, "UNLINK name ");
            assert_eq!(*name, b"\xff\x00\"");
        }
        other => panic!("unexpected line {:?}", other),
    }
}

#[test]
fn line_of_a_request() {
    let mut packet = vec![0u8; 40];
    packet[4] = 4;
    packet[8] = 7;
    packet[16] = 0x88;
    packet[17] = 0x77;
    packet.extend_from_slice(&[0u8; 88]);
    packet[40] = 0x41;
    packet[0] = packet.len() as u8;
    let abi = Abi { endian: Endian::Little, macos: false };
    let request = Request::try_from(&packet, abi).unwrap();
    assert_eq!(
        shown(&request.describe()),
        format!("FUSE({:3}) ino {:#018x}: SETATTR valid {:#x}", 7, 0x7788, 0x41)
    );
    assert_eq!(shown(&request.describe()), "FUSE(  7) ino 0x0000000000007788: SETATTR valid 0x41");
    match request.operation() {
        Operation::SetAttr { arg } => assert_eq!(*arg, SetAttrIn { valid: 0x41, ..zeroed() }),
        _ => panic!("Unexpected request operation"),
    }
}
