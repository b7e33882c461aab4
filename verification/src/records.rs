//! The fixed-size argument records of the kernel protocol, one per kind of
//! operation that carries one.
//!
//! The layouts are those of version 7.8 of the protocol. The macOS driver
//! extends three of the records; the fields that it adds are read only
//! from the packets of such a host.

use crate::abi::{read_u32, read_u64, word32, word64, Abi, Record};
use vstd::prelude::*;

verus! {

/// A byte range of a file and the lock on it, as part of `LkIn`.
#[derive(Debug, Clone, Copy, PartialEq, Eq, Structural)]
pub struct FileLock {
    pub start: u64,
    pub end: u64,
    pub typ: u32,
    pub pid: u32,
}

/// Arguments of `Forget`: how many lookups of the node are given back.
#[derive(Debug, Clone, Copy, PartialEq, Eq, Structural)]
pub struct ForgetIn {
    pub nlookup: u64,
}

impl Record for ForgetIn {
    open spec fn wire_size(abi: Abi) -> nat {
        8
    }

    open spec fn from_wire(bytes: Seq<u8>, abi: Abi) -> ForgetIn {
        ForgetIn {
            nlookup: word64(bytes, 0, abi.endian),
        }
    }

    fn size(abi: Abi) -> (n: usize) {
        8
    }

    fn read(bytes: &[u8], base: usize, abi: Abi) -> (r: ForgetIn) {
        ForgetIn {
            nlookup: read_u64(bytes, base, 0, abi.endian),
        }
    }
}

/// Arguments of `SetAttr`: the mask of attributes to set and their new values.
/// The last seven fields travel on macOS only and read as zero elsewhere.
#[derive(Debug, Clone, Copy, PartialEq, Eq, Structural)]
pub struct SetAttrIn {
    pub valid: u32,
    pub padding: u32,
    pub fh: u64,
    pub size: u64,
    pub unused1: u64,
    pub atime: u64,
    pub mtime: u64,
    pub unused2: u64,
    pub atimensec: u32,
    pub mtimensec: u32,
    pub unused3: u32,
    pub mode: u32,
    pub unused4: u32,
    pub uid: u32,
    pub gid: u32,
    pub unused5: u32,
    pub bkuptime: u64,
    pub chgtime: u64,
    pub crtime: u64,
    pub bkuptimensec: u32,
    pub chgtimensec: u32,
    pub crtimensec: u32,
    pub flags: u32,
}

impl Record for SetAttrIn {
    open spec fn wire_size(abi: Abi) -> nat {
        if abi.macos {
            128
        } else {
            88
        }
    }

    open spec fn from_wire(bytes: Seq<u8>, abi: Abi) -> SetAttrIn {
        SetAttrIn {
            valid: word32(bytes, 0, abi.endian),
            padding: word32(bytes, 4, abi.endian),
            fh: word64(bytes, 8, abi.endian),
            size: word64(bytes, 16, abi.endian),
            unused1: word64(bytes, 24, abi.endian),
            atime: word64(bytes, 32, abi.endian),
            mtime: word64(bytes, 40, abi.endian),
            unused2: word64(bytes, 48, abi.endian),
            atimensec: word32(bytes, 56, abi.endian),
            mtimensec: word32(bytes, 60, abi.endian),
            unused3: word32(bytes, 64, abi.endian),
            mode: word32(bytes, 68, abi.endian),
            unused4: word32(bytes, 72, abi.endian),
            uid: word32(bytes, 76, abi.endian),
            gid: word32(bytes, 80, abi.endian),
            unused5: word32(bytes, 84, abi.endian),
            bkuptime: if abi.macos {
                word64(bytes, 88, abi.endian)
            } else {
                0
            },
            chgtime: if abi.macos {
                word64(bytes, 96, abi.endian)
            } else {
                0
            },
            crtime: if abi.macos {
                word64(bytes, 104, abi.endian)
            } else {
                0
            },
            bkuptimensec: if abi.macos {
                word32(bytes, 112, abi.endian)
            } else {
                0
            },
            chgtimensec: if abi.macos {
                word32(bytes, 116, abi.endian)
            } else {
                0
            },
            crtimensec: if abi.macos {
                word32(bytes, 120, abi.endian)
            } else {
                0
            },
            flags: if abi.macos {
                word32(bytes, 124, abi.endian)
            } else {
                0
            },
        }
    }

    fn size(abi: Abi) -> (n: usize) {
        if abi.macos {
            128
        } else {
            88
        }
    }

    fn read(bytes: &[u8], base: usize, abi: Abi) -> (r: SetAttrIn) {
        SetAttrIn {
            valid: read_u32(bytes, base, 0, abi.endian),
            padding: read_u32(bytes, base, 4, abi.endian),
            fh: read_u64(bytes, base, 8, abi.endian),
            size: read_u64(bytes, base, 16, abi.endian),
            unused1: read_u64(bytes, base, 24, abi.endian),
            atime: read_u64(bytes, base, 32, abi.endian),
            mtime: read_u64(bytes, base, 40, abi.endian),
            unused2: read_u64(bytes, base, 48, abi.endian),
            atimensec: read_u32(bytes, base, 56, abi.endian),
            mtimensec: read_u32(bytes, base, 60, abi.endian),
            unused3: read_u32(bytes, base, 64, abi.endian),
            mode: read_u32(bytes, base, 68, abi.endian),
            unused4: read_u32(bytes, base, 72, abi.endian),
            uid: read_u32(bytes, base, 76, abi.endian),
            gid: read_u32(bytes, base, 80, abi.endian),
            unused5: read_u32(bytes, base, 84, abi.endian),
            bkuptime: if abi.macos {
                read_u64(bytes, base, 88, abi.endian)
            } else {
                0
            },
            chgtime: if abi.macos {
                read_u64(bytes, base, 96, abi.endian)
            } else {
                0
            },
            crtime: if abi.macos {
                read_u64(bytes, base, 104, abi.endian)
            } else {
                0
            },
            bkuptimensec: if abi.macos {
                read_u32(bytes, base, 112, abi.endian)
            } else {
                0
            },
            chgtimensec: if abi.macos {
                read_u32(bytes, base, 116, abi.endian)
            } else {
                0
            },
            crtimensec: if abi.macos {
                read_u32(bytes, base, 120, abi.endian)
            } else {
                0
            },
            flags: if abi.macos {
                read_u32(bytes, base, 124, abi.endian)
            } else {
                0
            },
        }
    }
}

/// Arguments of `MkNod`: file mode and device number of the new node.
#[derive(Debug, Clone, Copy, PartialEq, Eq, Structural)]
pub struct MkNodIn {
    pub mode: u32,
    pub rdev: u32,
}

impl Record for MkNodIn {
    open spec fn wire_size(abi: Abi) -> nat {
        8
    }

    open spec fn from_wire(bytes: Seq<u8>, abi: Abi) -> MkNodIn {
        MkNodIn {
            mode: word32(bytes, 0, abi.endian),
            rdev: word32(bytes, 4, abi.endian),
        }
    }

    fn size(abi: Abi) -> (n: usize) {
        8
    }

    fn read(bytes: &[u8], base: usize, abi: Abi) -> (r: MkNodIn) {
        MkNodIn {
            mode: read_u32(bytes, base, 0, abi.endian),
            rdev: read_u32(bytes, base, 4, abi.endian),
        }
    }
}

/// Arguments of `MkDir`: mode of the new directory.
#[derive(Debug, Clone, Copy, PartialEq, Eq, Structural)]
pub struct MkDirIn {
    pub mode: u32,
    pub padding: u32,
}

impl Record for MkDirIn {
    open spec fn wire_size(abi: Abi) -> nat {
        8
    }

    open spec fn from_wire(bytes: Seq<u8>, abi: Abi) -> MkDirIn {
        MkDirIn {
            mode: word32(bytes, 0, abi.endian),
            padding: word32(bytes, 4, abi.endian),
        }
    }

    fn size(abi: Abi) -> (n: usize) {
        8
    }

    fn read(bytes: &[u8], base: usize, abi: Abi) -> (r: MkDirIn) {
        MkDirIn {
            mode: read_u32(bytes, base, 0, abi.endian),
            padding: read_u32(bytes, base, 4, abi.endian),
        }
    }
}

/// Arguments of `Rename`: node id of the directory that receives the entry.
#[derive(Debug, Clone, Copy, PartialEq, Eq, Structural)]
pub struct RenameIn {
    pub newdir: u64,
}

impl Record for RenameIn {
    open spec fn wire_size(abi: Abi) -> nat {
        8
    }

    open spec fn from_wire(bytes: Seq<u8>, abi: Abi) -> RenameIn {
        RenameIn {
            newdir: word64(bytes, 0, abi.endian),
        }
    }

    fn size(abi: Abi) -> (n: usize) {
        8
    }

    fn read(bytes: &[u8], base: usize, abi: Abi) -> (r: RenameIn) {
        RenameIn {
            newdir: read_u64(bytes, base, 0, abi.endian),
        }
    }
}

/// Arguments of `Exchange`, an operation of macOS that swaps two entries.
#[derive(Debug, Clone, Copy, PartialEq, Eq, Structural)]
pub struct ExchangeIn {
    pub olddir: u64,
    pub newdir: u64,
    pub options: u64,
}

impl Record for ExchangeIn {
    open spec fn wire_size(abi: Abi) -> nat {
        24
    }

    open spec fn from_wire(bytes: Seq<u8>, abi: Abi) -> ExchangeIn {
        ExchangeIn {
            olddir: word64(bytes, 0, abi.endian),
            newdir: word64(bytes, 8, abi.endian),
            options: word64(bytes, 16, abi.endian),
        }
    }

    fn size(abi: Abi) -> (n: usize) {
        24
    }

    fn read(bytes: &[u8], base: usize, abi: Abi) -> (r: ExchangeIn) {
        ExchangeIn {
            olddir: read_u64(bytes, base, 0, abi.endian),
            newdir: read_u64(bytes, base, 8, abi.endian),
            options: read_u64(bytes, base, 16, abi.endian),
        }
    }
}

/// Arguments of `Link`: node id of the file that gets another name.
#[derive(Debug, Clone, Copy, PartialEq, Eq, Structural)]
pub struct LinkIn {
    pub oldnodeid: u64,
}

impl Record for LinkIn {
    open spec fn wire_size(abi: Abi) -> nat {
        8
    }

    open spec fn from_wire(bytes: Seq<u8>, abi: Abi) -> LinkIn {
        LinkIn {
            oldnodeid: word64(bytes, 0, abi.endian),
        }
    }

    fn size(abi: Abi) -> (n: usize) {
        8
    }

    fn read(bytes: &[u8], base: usize, abi: Abi) -> (r: LinkIn) {
        LinkIn {
            oldnodeid: read_u64(bytes, base, 0, abi.endian),
        }
    }
}

/// Arguments of `Open` and `OpenDir`.
#[derive(Debug, Clone, Copy, PartialEq, Eq, Structural)]
pub struct OpenIn {
    pub flags: u32,
    pub mode: u32,
}

impl Record for OpenIn {
    open spec fn wire_size(abi: Abi) -> nat {
        8
    }

    open spec fn from_wire(bytes: Seq<u8>, abi: Abi) -> OpenIn {
        OpenIn {
            flags: word32(bytes, 0, abi.endian),
            mode: word32(bytes, 4, abi.endian),
        }
    }

    fn size(abi: Abi) -> (n: usize) {
        8
    }

    fn read(bytes: &[u8], base: usize, abi: Abi) -> (r: OpenIn) {
        OpenIn {
            flags: read_u32(bytes, base, 0, abi.endian),
            mode: read_u32(bytes, base, 4, abi.endian),
        }
    }
}

/// Arguments of `Create`: open flags and mode of the new file.
#[derive(Debug, Clone, Copy, PartialEq, Eq, Structural)]
pub struct CreateIn {
    pub flags: u32,
    pub mode: u32,
}

impl Record for CreateIn {
    open spec fn wire_size(abi: Abi) -> nat {
        8
    }

    open spec fn from_wire(bytes: Seq<u8>, abi: Abi) -> CreateIn {
        CreateIn {
            flags: word32(bytes, 0, abi.endian),
            mode: word32(bytes, 4, abi.endian),
        }
    }

    fn size(abi: Abi) -> (n: usize) {
        8
    }

    fn read(bytes: &[u8], base: usize, abi: Abi) -> (r: CreateIn) {
        CreateIn {
            flags: read_u32(bytes, base, 0, abi.endian),
            mode: read_u32(bytes, base, 4, abi.endian),
        }
    }
}

/// Arguments of `Release` and `ReleaseDir`.
#[derive(Debug, Clone, Copy, PartialEq, Eq, Structural)]
pub struct ReleaseIn {
    pub fh: u64,
    pub flags: u32,
    pub release_flags: u32,
    pub lock_owner: u64,
}

impl Record for ReleaseIn {
    open spec fn wire_size(abi: Abi) -> nat {
        24
    }

    open spec fn from_wire(bytes: Seq<u8>, abi: Abi) -> ReleaseIn {
        ReleaseIn {
            fh: word64(bytes, 0, abi.endian),
            flags: word32(bytes, 8, abi.endian),
            release_flags: word32(bytes, 12, abi.endian),
            lock_owner: word64(bytes, 16, abi.endian),
        }
    }

    fn size(abi: Abi) -> (n: usize) {
        24
    }

    fn read(bytes: &[u8], base: usize, abi: Abi) -> (r: ReleaseIn) {
        ReleaseIn {
            fh: read_u64(bytes, base, 0, abi.endian),
            flags: read_u32(bytes, base, 8, abi.endian),
            release_flags: read_u32(bytes, base, 12, abi.endian),
            lock_owner: read_u64(bytes, base, 16, abi.endian),
        }
    }
}

/// Arguments of `Flush`.
#[derive(Debug, Clone, Copy, PartialEq, Eq, Structural)]
pub struct FlushIn {
    pub fh: u64,
    pub unused: u32,
    pub padding: u32,
    pub lock_owner: u64,
}

impl Record for FlushIn {
    open spec fn wire_size(abi: Abi) -> nat {
        24
    }

    open spec fn from_wire(bytes: Seq<u8>, abi: Abi) -> FlushIn {
        FlushIn {
            fh: word64(bytes, 0, abi.endian),
            unused: word32(bytes, 8, abi.endian),
            padding: word32(bytes, 12, abi.endian),
            lock_owner: word64(bytes, 16, abi.endian),
        }
    }

    fn size(abi: Abi) -> (n: usize) {
        24
    }

    fn read(bytes: &[u8], base: usize, abi: Abi) -> (r: FlushIn) {
        FlushIn {
            fh: read_u64(bytes, base, 0, abi.endian),
            unused: read_u32(bytes, base, 8, abi.endian),
            padding: read_u32(bytes, base, 12, abi.endian),
            lock_owner: read_u64(bytes, base, 16, abi.endian),
        }
    }
}

/// Arguments of `Read` and `ReadDir`.
#[derive(Debug, Clone, Copy, PartialEq, Eq, Structural)]
pub struct ReadIn {
    pub fh: u64,
    pub offset: u64,
    pub size: u32,
    pub padding: u32,
}

impl Record for ReadIn {
    open spec fn wire_size(abi: Abi) -> nat {
        24
    }

    open spec fn from_wire(bytes: Seq<u8>, abi: Abi) -> ReadIn {
        ReadIn {
            fh: word64(bytes, 0, abi.endian),
            offset: word64(bytes, 8, abi.endian),
            size: word32(bytes, 16, abi.endian),
            padding: word32(bytes, 20, abi.endian),
        }
    }

    fn size(abi: Abi) -> (n: usize) {
        24
    }

    fn read(bytes: &[u8], base: usize, abi: Abi) -> (r: ReadIn) {
        ReadIn {
            fh: read_u64(bytes, base, 0, abi.endian),
            offset: read_u64(bytes, base, 8, abi.endian),
            size: read_u32(bytes, base, 16, abi.endian),
            padding: read_u32(bytes, base, 20, abi.endian),
        }
    }
}

/// Arguments of `Write`; the data to write follows the record.
#[derive(Debug, Clone, Copy, PartialEq, Eq, Structural)]
pub struct WriteIn {
    pub fh: u64,
    pub offset: u64,
    pub size: u32,
    pub write_flags: u32,
}

impl Record for WriteIn {
    open spec fn wire_size(abi: Abi) -> nat {
        24
    }

    open spec fn from_wire(bytes: Seq<u8>, abi: Abi) -> WriteIn {
        WriteIn {
            fh: word64(bytes, 0, abi.endian),
            offset: word64(bytes, 8, abi.endian),
            size: word32(bytes, 16, abi.endian),
            write_flags: word32(bytes, 20, abi.endian),
        }
    }

    fn size(abi: Abi) -> (n: usize) {
        24
    }

    fn read(bytes: &[u8], base: usize, abi: Abi) -> (r: WriteIn) {
        WriteIn {
            fh: read_u64(bytes, base, 0, abi.endian),
            offset: read_u64(bytes, base, 8, abi.endian),
            size: read_u32(bytes, base, 16, abi.endian),
            write_flags: read_u32(bytes, base, 20, abi.endian),
        }
    }
}

/// Arguments of `FSync` and `FSyncDir`.
#[derive(Debug, Clone, Copy, PartialEq, Eq, Structural)]
pub struct FsyncIn {
    pub fh: u64,
    pub fsync_flags: u32,
    pub padding: u32,
}

impl Record for FsyncIn {
    open spec fn wire_size(abi: Abi) -> nat {
        16
    }

    open spec fn from_wire(bytes: Seq<u8>, abi: Abi) -> FsyncIn {
        FsyncIn {
            fh: word64(bytes, 0, abi.endian),
            fsync_flags: word32(bytes, 8, abi.endian),
            padding: word32(bytes, 12, abi.endian),
        }
    }

    fn size(abi: Abi) -> (n: usize) {
        16
    }

    fn read(bytes: &[u8], base: usize, abi: Abi) -> (r: FsyncIn) {
        FsyncIn {
            fh: read_u64(bytes, base, 0, abi.endian),
            fsync_flags: read_u32(bytes, base, 8, abi.endian),
            padding: read_u32(bytes, base, 12, abi.endian),
        }
    }
}

/// Arguments of `SetXAttr`; name and value follow the record.
/// `position` and `padding` travel on macOS only and read as zero elsewhere.
#[derive(Debug, Clone, Copy, PartialEq, Eq, Structural)]
pub struct SetXAttrIn {
    pub size: u32,
    pub flags: u32,
    pub position: u32,
    pub padding: u32,
}

impl Record for SetXAttrIn {
    open spec fn wire_size(abi: Abi) -> nat {
        if abi.macos {
            16
        } else {
            8
        }
    }

    open spec fn from_wire(bytes: Seq<u8>, abi: Abi) -> SetXAttrIn {
        SetXAttrIn {
            size: word32(bytes, 0, abi.endian),
            flags: word32(bytes, 4, abi.endian),
            position: if abi.macos {
                word32(bytes, 8, abi.endian)
            } else {
                0
            },
            padding: if abi.macos {
                word32(bytes, 12, abi.endian)
            } else {
                0
            },
        }
    }

    fn size(abi: Abi) -> (n: usize) {
        if abi.macos {
            16
        } else {
            8
        }
    }

    fn read(bytes: &[u8], base: usize, abi: Abi) -> (r: SetXAttrIn) {
        SetXAttrIn {
            size: read_u32(bytes, base, 0, abi.endian),
            flags: read_u32(bytes, base, 4, abi.endian),
            position: if abi.macos {
                read_u32(bytes, base, 8, abi.endian)
            } else {
                0
            },
            padding: if abi.macos {
                read_u32(bytes, base, 12, abi.endian)
            } else {
                0
            },
        }
    }
}

/// Arguments of `GetXAttr` and `ListXAttr`.
/// `position` and `padding2` travel on macOS only and read as zero elsewhere.
#[derive(Debug, Clone, Copy, PartialEq, Eq, Structural)]
pub struct GetXAttrIn {
    pub size: u32,
    pub padding: u32,
    pub position: u32,
    pub padding2: u32,
}

impl Record for GetXAttrIn {
    open spec fn wire_size(abi: Abi) -> nat {
        if abi.macos {
            16
        } else {
            8
        }
    }

    open spec fn from_wire(bytes: Seq<u8>, abi: Abi) -> GetXAttrIn {
        GetXAttrIn {
            size: word32(bytes, 0, abi.endian),
            padding: word32(bytes, 4, abi.endian),
            position: if abi.macos {
                word32(bytes, 8, abi.endian)
            } else {
                0
            },
            padding2: if abi.macos {
                word32(bytes, 12, abi.endian)
            } else {
                0
            },
        }
    }

    fn size(abi: Abi) -> (n: usize) {
        if abi.macos {
            16
        } else {
            8
        }
    }

    fn read(bytes: &[u8], base: usize, abi: Abi) -> (r: GetXAttrIn) {
        GetXAttrIn {
            size: read_u32(bytes, base, 0, abi.endian),
            padding: read_u32(bytes, base, 4, abi.endian),
            position: if abi.macos {
                read_u32(bytes, base, 8, abi.endian)
            } else {
                0
            },
            padding2: if abi.macos {
                read_u32(bytes, base, 12, abi.endian)
            } else {
                0
            },
        }
    }
}

/// Arguments of `GetLk`, `SetLk` and `SetLkW`: the file, the lock owner and the
/// byte range of the lock.
#[derive(Debug, Clone, Copy, PartialEq, Eq, Structural)]
pub struct LkIn {
    pub fh: u64,
    pub owner: u64,
    pub lk: FileLock,
}

impl Record for LkIn {
    open spec fn wire_size(abi: Abi) -> nat {
        40
    }

    open spec fn from_wire(bytes: Seq<u8>, abi: Abi) -> LkIn {
        LkIn {
            fh: word64(bytes, 0, abi.endian),
            owner: word64(bytes, 8, abi.endian),
            lk: FileLock {
                start: word64(bytes, 16, abi.endian),
                end: word64(bytes, 24, abi.endian),
                typ: word32(bytes, 32, abi.endian),
                pid: word32(bytes, 36, abi.endian),
            },
        }
    }

    fn size(abi: Abi) -> (n: usize) {
        40
    }

    fn read(bytes: &[u8], base: usize, abi: Abi) -> (r: LkIn) {
        LkIn {
            fh: read_u64(bytes, base, 0, abi.endian),
            owner: read_u64(bytes, base, 8, abi.endian),
            lk: FileLock {
                start: read_u64(bytes, base, 16, abi.endian),
                end: read_u64(bytes, base, 24, abi.endian),
                typ: read_u32(bytes, base, 32, abi.endian),
                pid: read_u32(bytes, base, 36, abi.endian),
            },
        }
    }
}

/// Arguments of `Access`: the permissions to test.
#[derive(Debug, Clone, Copy, PartialEq, Eq, Structural)]
pub struct AccessIn {
    pub mask: u32,
    pub padding: u32,
}

impl Record for AccessIn {
    open spec fn wire_size(abi: Abi) -> nat {
        8
    }

    open spec fn from_wire(bytes: Seq<u8>, abi: Abi) -> AccessIn {
        AccessIn {
            mask: word32(bytes, 0, abi.endian),
            padding: word32(bytes, 4, abi.endian),
        }
    }

    fn size(abi: Abi) -> (n: usize) {
        8
    }

    fn read(bytes: &[u8], base: usize, abi: Abi) -> (r: AccessIn) {
        AccessIn {
            mask: read_u32(bytes, base, 0, abi.endian),
            padding: read_u32(bytes, base, 4, abi.endian),
        }
    }
}

/// Arguments of `Init`: the protocol version of the kernel and what it offers.
#[derive(Debug, Clone, Copy, PartialEq, Eq, Structural)]
pub struct InitIn {
    pub major: u32,
    pub minor: u32,
    pub max_readahead: u32,
    pub flags: u32,
}

impl Record for InitIn {
    open spec fn wire_size(abi: Abi) -> nat {
        16
    }

    open spec fn from_wire(bytes: Seq<u8>, abi: Abi) -> InitIn {
        InitIn {
            major: word32(bytes, 0, abi.endian),
            minor: word32(bytes, 4, abi.endian),
            max_readahead: word32(bytes, 8, abi.endian),
            flags: word32(bytes, 12, abi.endian),
        }
    }

    fn size(abi: Abi) -> (n: usize) {
        16
    }

    fn read(bytes: &[u8], base: usize, abi: Abi) -> (r: InitIn) {
        InitIn {
            major: read_u32(bytes, base, 0, abi.endian),
            minor: read_u32(bytes, base, 4, abi.endian),
            max_readahead: read_u32(bytes, base, 8, abi.endian),
            flags: read_u32(bytes, base, 12, abi.endian),
        }
    }
}

/// Arguments of `Interrupt`: the id of the request to interrupt.
#[derive(Debug, Clone, Copy, PartialEq, Eq, Structural)]
pub struct InterruptIn {
    pub unique: u64,
}

impl Record for InterruptIn {
    open spec fn wire_size(abi: Abi) -> nat {
        8
    }

    open spec fn from_wire(bytes: Seq<u8>, abi: Abi) -> InterruptIn {
        InterruptIn {
            unique: word64(bytes, 0, abi.endian),
        }
    }

    fn size(abi: Abi) -> (n: usize) {
        8
    }

    fn read(bytes: &[u8], base: usize, abi: Abi) -> (r: InterruptIn) {
        InterruptIn {
            unique: read_u64(bytes, base, 0, abi.endian),
        }
    }
}

/// Arguments of `BMap`.
#[derive(Debug, Clone, Copy, PartialEq, Eq, Structural)]
pub struct BmapIn {
    pub block: u64,
    pub blocksize: u32,
    pub padding: u32,
}

impl Record for BmapIn {
    open spec fn wire_size(abi: Abi) -> nat {
        16
    }

    open spec fn from_wire(bytes: Seq<u8>, abi: Abi) -> BmapIn {
        BmapIn {
            block: word64(bytes, 0, abi.endian),
            blocksize: word32(bytes, 8, abi.endian),
            padding: word32(bytes, 12, abi.endian),
        }
    }

    fn size(abi: Abi) -> (n: usize) {
        16
    }

    fn read(bytes: &[u8], base: usize, abi: Abi) -> (r: BmapIn) {
        BmapIn {
            block: read_u64(bytes, base, 0, abi.endian),
            blocksize: read_u32(bytes, base, 8, abi.endian),
            padding: read_u32(bytes, base, 12, abi.endian),
        }
    }
}

} // verus!
