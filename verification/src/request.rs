//! Requests of the kernel driver: the operation that a packet asks for, with
//! its arguments, and the decoder that reads both from the bytes of a packet.

use crate::abi::{Abi, InHeader, Record};
use crate::argument::{after_name, first_name, has_nul, nul_index, ArgumentIterator};
use crate::error::{RequestError, HEADER_SIZE};
use crate::opcode::Opcode;
use crate::records::{
    AccessIn, BmapIn, CreateIn, ExchangeIn, FlushIn, ForgetIn, FsyncIn, GetXAttrIn, InitIn,
    InterruptIn, LinkIn, LkIn, MkDirIn, MkNodIn, OpenIn, ReadIn, ReleaseIn, RenameIn, SetAttrIn,
    SetXAttrIn, WriteIn,
};
use vstd::prelude::*;
use vstd::slice::slice_subrange;

verus! {

/// Operation that the kernel driver asks for, with its arguments. Names and
/// trailing data are views into the packet that the operation was read from.
#[derive(Debug, Clone, Copy)]
pub enum Operation<'a> {
    /// Look up the entry `name` of the directory.
    Lookup { name: &'a [u8] },
    /// Give back lookups of the node.
    Forget { arg: ForgetIn },
    /// Get the attributes of the node.
    GetAttr,
    /// Set attributes of the node.
    SetAttr { arg: SetAttrIn },
    /// Read the target of the symbolic link.
    ReadLink,
    /// Create the symbolic link `name` that points to `link`.
    SymLink { name: &'a [u8], link: &'a [u8] },
    /// Create the file node `name`.
    MkNod { arg: MkNodIn, name: &'a [u8] },
    /// Create the directory `name`.
    MkDir { arg: MkDirIn, name: &'a [u8] },
    /// Remove the file `name`.
    Unlink { name: &'a [u8] },
    /// Remove the directory `name`.
    RmDir { name: &'a [u8] },
    /// Move the entry `name` to `newname` in another directory.
    Rename { arg: RenameIn, name: &'a [u8], newname: &'a [u8] },
    /// Give a file the further name `name`.
    Link { arg: LinkIn, name: &'a [u8] },
    /// Open the file.
    Open { arg: OpenIn },
    /// Read from the open file.
    Read { arg: ReadIn },
    /// Write `data`, the rest of the packet, to the open file.
    Write { arg: WriteIn, data: &'a [u8] },
    /// Get the statistics of the filesystem.
    StatFs,
    /// Close the open file.
    Release { arg: ReleaseIn },
    /// Flush the open file to storage.
    FSync { arg: FsyncIn },
    /// Set the extended attribute `name` to `value`, the rest of the packet.
    SetXAttr { arg: SetXAttrIn, name: &'a [u8], value: &'a [u8] },
    /// Get the extended attribute `name`.
    GetXAttr { arg: GetXAttrIn, name: &'a [u8] },
    /// List the names of the extended attributes.
    ListXAttr { arg: GetXAttrIn },
    /// Remove the extended attribute `name`.
    RemoveXAttr { name: &'a [u8] },
    /// Flush at the close of a file descriptor.
    Flush { arg: FlushIn },
    /// Open the session.
    Init { arg: InitIn },
    /// Open the directory.
    OpenDir { arg: OpenIn },
    /// Read entries of the open directory.
    ReadDir { arg: ReadIn },
    /// Close the open directory.
    ReleaseDir { arg: ReleaseIn },
    /// Flush the open directory to storage.
    FSyncDir { arg: FsyncIn },
    /// Test for a file lock.
    GetLk { arg: LkIn },
    /// Take or release a file lock without waiting.
    SetLk { arg: LkIn },
    /// Take a file lock, waiting for it.
    SetLkW { arg: LkIn },
    /// Test the access permissions.
    Access { arg: AccessIn },
    /// Create and open the file `name`.
    Create { arg: CreateIn, name: &'a [u8] },
    /// Interrupt a request that is under way.
    Interrupt { arg: InterruptIn },
    /// Map a block of the file to a block of the device.
    BMap { arg: BmapIn },
    /// Close the session.
    Destroy,
    /// Set the name of the volume (macOS).
    SetVolName { name: &'a [u8] },
    /// Get the backup and creation times (macOS).
    GetXTimes,
    /// Swap the entries `oldname` and `newname` (macOS).
    Exchange { arg: ExchangeIn, oldname: &'a [u8], newname: &'a [u8] },
}

/// What an `Operation` holds, with the contents of each view into the packet
/// in place of the view.
pub enum OperationView {
    Lookup { name: Seq<u8> },
    Forget { arg: ForgetIn },
    GetAttr,
    SetAttr { arg: SetAttrIn },
    ReadLink,
    SymLink { name: Seq<u8>, link: Seq<u8> },
    MkNod { arg: MkNodIn, name: Seq<u8> },
    MkDir { arg: MkDirIn, name: Seq<u8> },
    Unlink { name: Seq<u8> },
    RmDir { name: Seq<u8> },
    Rename { arg: RenameIn, name: Seq<u8>, newname: Seq<u8> },
    Link { arg: LinkIn, name: Seq<u8> },
    Open { arg: OpenIn },
    Read { arg: ReadIn },
    Write { arg: WriteIn, data: Seq<u8> },
    StatFs,
    Release { arg: ReleaseIn },
    FSync { arg: FsyncIn },
    SetXAttr { arg: SetXAttrIn, name: Seq<u8>, value: Seq<u8> },
    GetXAttr { arg: GetXAttrIn, name: Seq<u8> },
    ListXAttr { arg: GetXAttrIn },
    RemoveXAttr { name: Seq<u8> },
    Flush { arg: FlushIn },
    Init { arg: InitIn },
    OpenDir { arg: OpenIn },
    ReadDir { arg: ReadIn },
    ReleaseDir { arg: ReleaseIn },
    FSyncDir { arg: FsyncIn },
    GetLk { arg: LkIn },
    SetLk { arg: LkIn },
    SetLkW { arg: LkIn },
    Access { arg: AccessIn },
    Create { arg: CreateIn, name: Seq<u8> },
    Interrupt { arg: InterruptIn },
    BMap { arg: BmapIn },
    Destroy,
    SetVolName { name: Seq<u8> },
    GetXTimes,
    Exchange { arg: ExchangeIn, oldname: Seq<u8>, newname: Seq<u8> },
}

impl<'a> View for Operation<'a> {
    type V = OperationView;

    open spec fn view(&self) -> OperationView {
        match *self {
            Operation::Lookup { name } => OperationView::Lookup { name: name@ },
            Operation::Forget { arg } => OperationView::Forget { arg },
            Operation::GetAttr => OperationView::GetAttr,
            Operation::SetAttr { arg } => OperationView::SetAttr { arg },
            Operation::ReadLink => OperationView::ReadLink,
            Operation::SymLink { name, link } => OperationView::SymLink {
                name: name@,
                link: link@,
            },
            Operation::MkNod { arg, name } => OperationView::MkNod { arg, name: name@ },
            Operation::MkDir { arg, name } => OperationView::MkDir { arg, name: name@ },
            Operation::Unlink { name } => OperationView::Unlink { name: name@ },
            Operation::RmDir { name } => OperationView::RmDir { name: name@ },
            Operation::Rename { arg, name, newname } => OperationView::Rename {
                arg,
                name: name@,
                newname: newname@,
            },
            Operation::Link { arg, name } => OperationView::Link { arg, name: name@ },
            Operation::Open { arg } => OperationView::Open { arg },
            Operation::Read { arg } => OperationView::Read { arg },
            Operation::Write { arg, data } => OperationView::Write { arg, data: data@ },
            Operation::StatFs => OperationView::StatFs,
            Operation::Release { arg } => OperationView::Release { arg },
            Operation::FSync { arg } => OperationView::FSync { arg },
            Operation::SetXAttr { arg, name, value } => OperationView::SetXAttr {
                arg,
                name: name@,
                value: value@,
            },
            Operation::GetXAttr { arg, name } => OperationView::GetXAttr { arg, name: name@ },
            Operation::ListXAttr { arg } => OperationView::ListXAttr { arg },
            Operation::RemoveXAttr { name } => OperationView::RemoveXAttr { name: name@ },
            Operation::Flush { arg } => OperationView::Flush { arg },
            Operation::Init { arg } => OperationView::Init { arg },
            Operation::OpenDir { arg } => OperationView::OpenDir { arg },
            Operation::ReadDir { arg } => OperationView::ReadDir { arg },
            Operation::ReleaseDir { arg } => OperationView::ReleaseDir { arg },
            Operation::FSyncDir { arg } => OperationView::FSyncDir { arg },
            Operation::GetLk { arg } => OperationView::GetLk { arg },
            Operation::SetLk { arg } => OperationView::SetLk { arg },
            Operation::SetLkW { arg } => OperationView::SetLkW { arg },
            Operation::Access { arg } => OperationView::Access { arg },
            Operation::Create { arg, name } => OperationView::Create { arg, name: name@ },
            Operation::Interrupt { arg } => OperationView::Interrupt { arg },
            Operation::BMap { arg } => OperationView::BMap { arg },
            Operation::Destroy => OperationView::Destroy,
            Operation::SetVolName { name } => OperationView::SetVolName { name: name@ },
            Operation::GetXTimes => OperationView::GetXTimes,
            Operation::Exchange { arg, oldname, newname } => OperationView::Exchange {
                arg,
                oldname: oldname@,
                newname: newname@,
            },
        }
    }
}

impl OperationView {
    /// The opcode of the operation.
    pub open spec fn opcode(self) -> Opcode {
        match self {
            OperationView::Lookup { .. } => Opcode::Lookup,
            OperationView::Forget { .. } => Opcode::Forget,
            OperationView::GetAttr => Opcode::GetAttr,
            OperationView::SetAttr { .. } => Opcode::SetAttr,
            OperationView::ReadLink => Opcode::ReadLink,
            OperationView::SymLink { .. } => Opcode::SymLink,
            OperationView::MkNod { .. } => Opcode::MkNod,
            OperationView::MkDir { .. } => Opcode::MkDir,
            OperationView::Unlink { .. } => Opcode::Unlink,
            OperationView::RmDir { .. } => Opcode::RmDir,
            OperationView::Rename { .. } => Opcode::Rename,
            OperationView::Link { .. } => Opcode::Link,
            OperationView::Open { .. } => Opcode::Open,
            OperationView::Read { .. } => Opcode::Read,
            OperationView::Write { .. } => Opcode::Write,
            OperationView::StatFs => Opcode::StatFs,
            OperationView::Release { .. } => Opcode::Release,
            OperationView::FSync { .. } => Opcode::FSync,
            OperationView::SetXAttr { .. } => Opcode::SetXAttr,
            OperationView::GetXAttr { .. } => Opcode::GetXAttr,
            OperationView::ListXAttr { .. } => Opcode::ListXAttr,
            OperationView::RemoveXAttr { .. } => Opcode::RemoveXAttr,
            OperationView::Flush { .. } => Opcode::Flush,
            OperationView::Init { .. } => Opcode::Init,
            OperationView::OpenDir { .. } => Opcode::OpenDir,
            OperationView::ReadDir { .. } => Opcode::ReadDir,
            OperationView::ReleaseDir { .. } => Opcode::ReleaseDir,
            OperationView::FSyncDir { .. } => Opcode::FSyncDir,
            OperationView::GetLk { .. } => Opcode::GetLk,
            OperationView::SetLk { .. } => Opcode::SetLk,
            OperationView::SetLkW { .. } => Opcode::SetLkW,
            OperationView::Access { .. } => Opcode::Access,
            OperationView::Create { .. } => Opcode::Create,
            OperationView::Interrupt { .. } => Opcode::Interrupt,
            OperationView::BMap { .. } => Opcode::BMap,
            OperationView::Destroy => Opcode::Destroy,
            OperationView::SetVolName { .. } => Opcode::SetVolName,
            OperationView::GetXTimes => Opcode::GetXTimes,
            OperationView::Exchange { .. } => Opcode::Exchange,
        }
    }

    /// The parts of the operation that are views into the packet, in the
    /// order in which they stand there.
    pub open spec fn byte_fields(self) -> Seq<Seq<u8>> {
        match self {
            OperationView::Lookup { name } => seq![name],
            OperationView::Forget { .. } => seq![],
            OperationView::GetAttr => seq![],
            OperationView::SetAttr { .. } => seq![],
            OperationView::ReadLink => seq![],
            OperationView::SymLink { name, link } => seq![name, link],
            OperationView::MkNod { name, .. } => seq![name],
            OperationView::MkDir { name, .. } => seq![name],
            OperationView::Unlink { name } => seq![name],
            OperationView::RmDir { name } => seq![name],
            OperationView::Rename { name, newname, .. } => seq![name, newname],
            OperationView::Link { name, .. } => seq![name],
            OperationView::Open { .. } => seq![],
            OperationView::Read { .. } => seq![],
            OperationView::Write { data, .. } => seq![data],
            OperationView::StatFs => seq![],
            OperationView::Release { .. } => seq![],
            OperationView::FSync { .. } => seq![],
            OperationView::SetXAttr { name, value, .. } => seq![name, value],
            OperationView::GetXAttr { name, .. } => seq![name],
            OperationView::ListXAttr { .. } => seq![],
            OperationView::RemoveXAttr { name } => seq![name],
            OperationView::Flush { .. } => seq![],
            OperationView::Init { .. } => seq![],
            OperationView::OpenDir { .. } => seq![],
            OperationView::ReadDir { .. } => seq![],
            OperationView::ReleaseDir { .. } => seq![],
            OperationView::FSyncDir { .. } => seq![],
            OperationView::GetLk { .. } => seq![],
            OperationView::SetLk { .. } => seq![],
            OperationView::SetLkW { .. } => seq![],
            OperationView::Access { .. } => seq![],
            OperationView::Create { name, .. } => seq![name],
            OperationView::Interrupt { .. } => seq![],
            OperationView::BMap { .. } => seq![],
            OperationView::Destroy => seq![],
            OperationView::SetVolName { name } => seq![name],
            OperationView::GetXTimes => seq![],
            OperationView::Exchange { oldname, newname, .. } => seq![oldname, newname],
        }
    }
}

/// Size of the fixed record that opens the arguments of `op`, zero where
/// there is none.
pub open spec fn record_size(op: Opcode, abi: Abi) -> nat {
    match op {
        Opcode::Lookup => 0,
        Opcode::Forget => ForgetIn::wire_size(abi),
        Opcode::GetAttr => 0,
        Opcode::SetAttr => SetAttrIn::wire_size(abi),
        Opcode::ReadLink => 0,
        Opcode::SymLink => 0,
        Opcode::MkNod => MkNodIn::wire_size(abi),
        Opcode::MkDir => MkDirIn::wire_size(abi),
        Opcode::Unlink => 0,
        Opcode::RmDir => 0,
        Opcode::Rename => RenameIn::wire_size(abi),
        Opcode::Link => LinkIn::wire_size(abi),
        Opcode::Open => OpenIn::wire_size(abi),
        Opcode::Read => ReadIn::wire_size(abi),
        Opcode::Write => WriteIn::wire_size(abi),
        Opcode::StatFs => 0,
        Opcode::Release => ReleaseIn::wire_size(abi),
        Opcode::FSync => FsyncIn::wire_size(abi),
        Opcode::SetXAttr => SetXAttrIn::wire_size(abi),
        Opcode::GetXAttr => GetXAttrIn::wire_size(abi),
        Opcode::ListXAttr => GetXAttrIn::wire_size(abi),
        Opcode::RemoveXAttr => 0,
        Opcode::Flush => FlushIn::wire_size(abi),
        Opcode::Init => InitIn::wire_size(abi),
        Opcode::OpenDir => OpenIn::wire_size(abi),
        Opcode::ReadDir => ReadIn::wire_size(abi),
        Opcode::ReleaseDir => ReleaseIn::wire_size(abi),
        Opcode::FSyncDir => FsyncIn::wire_size(abi),
        Opcode::GetLk => LkIn::wire_size(abi),
        Opcode::SetLk => LkIn::wire_size(abi),
        Opcode::SetLkW => LkIn::wire_size(abi),
        Opcode::Access => AccessIn::wire_size(abi),
        Opcode::Create => CreateIn::wire_size(abi),
        Opcode::Interrupt => InterruptIn::wire_size(abi),
        Opcode::BMap => BmapIn::wire_size(abi),
        Opcode::Destroy => 0,
        Opcode::SetVolName => 0,
        Opcode::GetXTimes => 0,
        Opcode::Exchange => ExchangeIn::wire_size(abi),
    }
}

/// Number of NUL-terminated names that follow the record of `op`.
pub open spec fn name_count(op: Opcode) -> nat {
    match op {
        Opcode::SymLink
        | Opcode::Rename
        | Opcode::Exchange => 2,
        Opcode::Lookup
        | Opcode::MkNod
        | Opcode::MkDir
        | Opcode::Unlink
        | Opcode::RmDir
        | Opcode::Link
        | Opcode::SetXAttr
        | Opcode::GetXAttr
        | Opcode::RemoveXAttr
        | Opcode::Create
        | Opcode::SetVolName => 1,
        _ => 0,
    }
}

/// True if the arguments of `op` end with data that runs to the end of the
/// packet.
pub open spec fn takes_tail(op: Opcode) -> bool {
    op is Write || op is SetXAttr
}

/// Number of bytes that the parser of `op` consumes from the front of `s`
/// before it is done or, for an operation with trailing data, before it
/// takes what is left: the record and the names with the NUL of each.
/// `None` if `s` is shorter than the record or lacks the NUL of a name.
pub open spec fn spec_consumed(op: Opcode, s: Seq<u8>, abi: Abi) -> Option<nat> {
    let names = s.skip(record_size(op, abi) as int);
    if s.len() < record_size(op, abi) {
        None
    } else if name_count(op) == 0 {
        Some(record_size(op, abi))
    } else if !has_nul(names) {
        None
    } else if name_count(op) == 1 {
        Some((record_size(op, abi) + nul_index(names) + 1) as nat)
    } else if !has_nul(after_name(names)) {
        None
    } else {
        Some(
            (record_size(op, abi) + nul_index(names) + 1 + nul_index(after_name(names))
                + 1) as nat,
        )
    }
}

/// The operation `op` with the arguments that the bytes `s` hold, or `None`
/// if `s` is too short for the record of `op` or lacks the NUL that ends one
/// of its names.
pub open spec fn spec_parse(op: Opcode, s: Seq<u8>, abi: Abi) -> Option<OperationView> {
    let names = s.skip(record_size(op, abi) as int);
    if s.len() < record_size(op, abi) {
        None
    } else if name_count(op) >= 1 && !has_nul(names) {
        None
    } else if name_count(op) >= 2 && !has_nul(after_name(names)) {
        None
    } else {
        Some(
            match op {
                Opcode::Lookup => OperationView::Lookup {
                    name: first_name(names),
                },
                Opcode::Forget => OperationView::Forget {
                    arg: ForgetIn::from_wire(s, abi),
                },
                Opcode::GetAttr => OperationView::GetAttr,
                Opcode::SetAttr => OperationView::SetAttr {
                    arg: SetAttrIn::from_wire(s, abi),
                },
                Opcode::ReadLink => OperationView::ReadLink,
                Opcode::SymLink => OperationView::SymLink {
                    name: first_name(names),
                    link: first_name(after_name(names)),
                },
                Opcode::MkNod => OperationView::MkNod {
                    arg: MkNodIn::from_wire(s, abi),
                    name: first_name(names),
                },
                Opcode::MkDir => OperationView::MkDir {
                    arg: MkDirIn::from_wire(s, abi),
                    name: first_name(names),
                },
                Opcode::Unlink => OperationView::Unlink {
                    name: first_name(names),
                },
                Opcode::RmDir => OperationView::RmDir {
                    name: first_name(names),
                },
                Opcode::Rename => OperationView::Rename {
                    arg: RenameIn::from_wire(s, abi),
                    name: first_name(names),
                    newname: first_name(after_name(names)),
                },
                Opcode::Link => OperationView::Link {
                    arg: LinkIn::from_wire(s, abi),
                    name: first_name(names),
                },
                Opcode::Open => OperationView::Open {
                    arg: OpenIn::from_wire(s, abi),
                },
                Opcode::Read => OperationView::Read {
                    arg: ReadIn::from_wire(s, abi),
                },
                Opcode::Write => OperationView::Write {
                    arg: WriteIn::from_wire(s, abi),
                    data: names,
                },
                Opcode::StatFs => OperationView::StatFs,
                Opcode::Release => OperationView::Release {
                    arg: ReleaseIn::from_wire(s, abi),
                },
                Opcode::FSync => OperationView::FSync {
                    arg: FsyncIn::from_wire(s, abi),
                },
                Opcode::SetXAttr => OperationView::SetXAttr {
                    arg: SetXAttrIn::from_wire(s, abi),
                    name: first_name(names),
                    value: after_name(names),
                },
                Opcode::GetXAttr => OperationView::GetXAttr {
                    arg: GetXAttrIn::from_wire(s, abi),
                    name: first_name(names),
                },
                Opcode::ListXAttr => OperationView::ListXAttr {
                    arg: GetXAttrIn::from_wire(s, abi),
                },
                Opcode::RemoveXAttr => OperationView::RemoveXAttr {
                    name: first_name(names),
                },
                Opcode::Flush => OperationView::Flush {
                    arg: FlushIn::from_wire(s, abi),
                },
                Opcode::Init => OperationView::Init {
                    arg: InitIn::from_wire(s, abi),
                },
                Opcode::OpenDir => OperationView::OpenDir {
                    arg: OpenIn::from_wire(s, abi),
                },
                Opcode::ReadDir => OperationView::ReadDir {
                    arg: ReadIn::from_wire(s, abi),
                },
                Opcode::ReleaseDir => OperationView::ReleaseDir {
                    arg: ReleaseIn::from_wire(s, abi),
                },
                Opcode::FSyncDir => OperationView::FSyncDir {
                    arg: FsyncIn::from_wire(s, abi),
                },
                Opcode::GetLk => OperationView::GetLk {
                    arg: LkIn::from_wire(s, abi),
                },
                Opcode::SetLk => OperationView::SetLk {
                    arg: LkIn::from_wire(s, abi),
                },
                Opcode::SetLkW => OperationView::SetLkW {
                    arg: LkIn::from_wire(s, abi),
                },
                Opcode::Access => OperationView::Access {
                    arg: AccessIn::from_wire(s, abi),
                },
                Opcode::Create => OperationView::Create {
                    arg: CreateIn::from_wire(s, abi),
                    name: first_name(names),
                },
                Opcode::Interrupt => OperationView::Interrupt {
                    arg: InterruptIn::from_wire(s, abi),
                },
                Opcode::BMap => OperationView::BMap {
                    arg: BmapIn::from_wire(s, abi),
                },
                Opcode::Destroy => OperationView::Destroy,
                Opcode::SetVolName => OperationView::SetVolName {
                    name: first_name(names),
                },
                Opcode::GetXTimes => OperationView::GetXTimes,
                Opcode::Exchange => OperationView::Exchange {
                    arg: ExchangeIn::from_wire(s, abi),
                    oldname: first_name(names),
                    newname: first_name(after_name(names)),
                },
            },
        )
    }
}

/// Reads a record and the name that follows it.
fn fetch_with_name<'a, T: Record>(data: &mut ArgumentIterator<'a>, abi: Abi) -> (r: Option<
    (T, &'a [u8]),
>)
    ensures
        final(data).buffer() == old(data).buffer(),
        match r {
            Some((arg, name)) => {
                let names = old(data).remaining().skip(T::wire_size(abi) as int);
                &&& T::wire_size(abi) <= old(data).remaining().len()
                &&& has_nul(names)
                &&& arg == T::from_wire(old(data).remaining(), abi)
                &&& name@ == first_name(names)
                &&& name@.len() == nul_index(names)
                &&& final(data).remaining() == after_name(names)
                &&& final(data).position() == old(data).position() + T::wire_size(abi)
                    + nul_index(names) + 1
            },
            None => {
                ||| T::wire_size(abi) > old(data).remaining().len()
                ||| !has_nul(old(data).remaining().skip(T::wire_size(abi) as int))
            },
        },
{
    let arg: T = match data.fetch::<T>(abi) {
        Some(arg) => arg,
        None => return None,
    };
    match data.fetch_str() {
        Some(name) => Some((arg, name)),
        None => None,
    }
}

/// Reads two names that follow each other.
fn fetch_two_names<'a>(data: &mut ArgumentIterator<'a>) -> (r: Option<(&'a [u8], &'a [u8])>)
    ensures
        final(data).buffer() == old(data).buffer(),
        match r {
            Some((first, second)) => {
                &&& has_nul(old(data).remaining())
                &&& has_nul(after_name(old(data).remaining()))
                &&& first@ == first_name(old(data).remaining())
                &&& second@ == first_name(after_name(old(data).remaining()))
                &&& first@.len() == nul_index(old(data).remaining())
                &&& second@.len() == nul_index(after_name(old(data).remaining()))
                &&& final(data).remaining() == after_name(after_name(old(data).remaining()))
                &&& final(data).position() == old(data).position() + nul_index(
                    old(data).remaining(),
                ) + 1 + nul_index(after_name(old(data).remaining())) + 1
            },
            None => !has_nul(old(data).remaining()) || !has_nul(
                after_name(old(data).remaining()),
            ),
        },
{
    let first = match data.fetch_str() {
        Some(name) => name,
        None => return None,
    };
    match data.fetch_str() {
        Some(second) => Some((first, second)),
        None => None,
    }
}

/// Reads a record and the two names that follow it.
fn fetch_with_two_names<'a, T: Record>(data: &mut ArgumentIterator<'a>, abi: Abi) -> (r: Option<
    (T, &'a [u8], &'a [u8]),
>)
    ensures
        final(data).buffer() == old(data).buffer(),
        match r {
            Some((arg, first, second)) => {
                let names = old(data).remaining().skip(T::wire_size(abi) as int);
                &&& T::wire_size(abi) <= old(data).remaining().len()
                &&& has_nul(names)
                &&& has_nul(after_name(names))
                &&& arg == T::from_wire(old(data).remaining(), abi)
                &&& first@ == first_name(names)
                &&& second@ == first_name(after_name(names))
                &&& first@.len() == nul_index(names)
                &&& second@.len() == nul_index(after_name(names))
                &&& final(data).position() == old(data).position() + T::wire_size(abi)
                    + nul_index(names) + 1 + nul_index(after_name(names)) + 1
            },
            None => {
                let names = old(data).remaining().skip(T::wire_size(abi) as int);
                ||| T::wire_size(abi) > old(data).remaining().len()
                ||| !has_nul(names)
                ||| !has_nul(after_name(names))
            },
        },
{
    let arg: T = match data.fetch::<T>(abi) {
        Some(arg) => arg,
        None => return None,
    };
    match fetch_two_names(data) {
        Some((first, second)) => Some((arg, first, second)),
        None => None,
    }
}

impl<'a> Operation<'a> {
    /// Reads the arguments of the operation `opcode` from the bytes that are
    /// left in `data`. Returns `None` if they do not hold all the arguments.
    pub fn parse(opcode: Opcode, data: &mut ArgumentIterator<'a>, abi: Abi) -> (r: Option<
        Operation<'a>,
    >)
        ensures
            final(data).buffer() == old(data).buffer(),
            match r {
                Some(operation) => {
                    &&& spec_parse(opcode, old(data).remaining(), abi) == Some(operation@)
                    &&& final(data).position() == if takes_tail(opcode) {
                        old(data).buffer().len()
                    } else {
                        old(data).position() + spec_consumed(
                            opcode,
                            old(data).remaining(),
                            abi,
                        )->0
                    }
                },
                None => spec_parse(opcode, old(data).remaining(), abi) is None,
            },
    {
        assert(data.remaining().skip(0) =~= data.remaining());
        // Naming every case lets the solver split on the opcode at once.
        assert(
            opcode is Lookup
            || opcode is Forget
            || opcode is GetAttr
            || opcode is SetAttr
            || opcode is ReadLink
            || opcode is SymLink
            || opcode is MkNod
            || opcode is MkDir
            || opcode is Unlink
            || opcode is RmDir
            || opcode is Rename
            || opcode is Link
            || opcode is Open
            || opcode is Read
            || opcode is Write
            || opcode is StatFs
            || opcode is Release
            || opcode is FSync
            || opcode is SetXAttr
            || opcode is GetXAttr
            || opcode is ListXAttr
            || opcode is RemoveXAttr
            || opcode is Flush
            || opcode is Init
            || opcode is OpenDir
            || opcode is ReadDir
            || opcode is ReleaseDir
            || opcode is FSyncDir
            || opcode is GetLk
            || opcode is SetLk
            || opcode is SetLkW
            || opcode is Access
            || opcode is Create
            || opcode is Interrupt
            || opcode is BMap
            || opcode is Destroy
            || opcode is SetVolName
            || opcode is GetXTimes
            || opcode is Exchange
        );
        match opcode {
            Opcode::Lookup => match data.fetch_str() {
                Some(name) => Some(Operation::Lookup { name }),
                None => None,
            },
            Opcode::Forget => match data.fetch::<ForgetIn>(abi) {
                Some(arg) => Some(Operation::Forget { arg }),
                None => None,
            },
            Opcode::GetAttr => Some(Operation::GetAttr),
            Opcode::SetAttr => match data.fetch::<SetAttrIn>(abi) {
                Some(arg) => Some(Operation::SetAttr { arg }),
                None => None,
            },
            Opcode::ReadLink => Some(Operation::ReadLink),
            Opcode::SymLink => match fetch_two_names(data) {
                Some((name, link)) => Some(Operation::SymLink { name, link }),
                None => None,
            },
            Opcode::MkNod => match fetch_with_name::<MkNodIn>(data, abi) {
                Some((arg, name)) => Some(Operation::MkNod { arg, name }),
                None => None,
            },
            Opcode::MkDir => match fetch_with_name::<MkDirIn>(data, abi) {
                Some((arg, name)) => Some(Operation::MkDir { arg, name }),
                None => None,
            },
            Opcode::Unlink => match data.fetch_str() {
                Some(name) => Some(Operation::Unlink { name }),
                None => None,
            },
            Opcode::RmDir => match data.fetch_str() {
                Some(name) => Some(Operation::RmDir { name }),
                None => None,
            },
            Opcode::Rename => match fetch_with_two_names::<RenameIn>(data, abi) {
                Some((arg, name, newname)) => Some(Operation::Rename { arg, name, newname }),
                None => None,
            },
            Opcode::Link => match fetch_with_name::<LinkIn>(data, abi) {
                Some((arg, name)) => Some(Operation::Link { arg, name }),
                None => None,
            },
            Opcode::Open => match data.fetch::<OpenIn>(abi) {
                Some(arg) => Some(Operation::Open { arg }),
                None => None,
            },
            Opcode::Read => match data.fetch::<ReadIn>(abi) {
                Some(arg) => Some(Operation::Read { arg }),
                None => None,
            },
            Opcode::Write => match data.fetch::<WriteIn>(abi) {
                Some(arg) => {
                    let data = data.fetch_all();
                    Some(Operation::Write { arg, data })
                },
                None => None,
            },
            Opcode::StatFs => Some(Operation::StatFs),
            Opcode::Release => match data.fetch::<ReleaseIn>(abi) {
                Some(arg) => Some(Operation::Release { arg }),
                None => None,
            },
            Opcode::FSync => match data.fetch::<FsyncIn>(abi) {
                Some(arg) => Some(Operation::FSync { arg }),
                None => None,
            },
            Opcode::SetXAttr => match fetch_with_name::<SetXAttrIn>(data, abi) {
                Some((arg, name)) => {
                    let value = data.fetch_all();
                    Some(Operation::SetXAttr { arg, name, value })
                },
                None => None,
            },
            Opcode::GetXAttr => match fetch_with_name::<GetXAttrIn>(data, abi) {
                Some((arg, name)) => Some(Operation::GetXAttr { arg, name }),
                None => None,
            },
            Opcode::ListXAttr => match data.fetch::<GetXAttrIn>(abi) {
                Some(arg) => Some(Operation::ListXAttr { arg }),
                None => None,
            },
            Opcode::RemoveXAttr => match data.fetch_str() {
                Some(name) => Some(Operation::RemoveXAttr { name }),
                None => None,
            },
            Opcode::Flush => match data.fetch::<FlushIn>(abi) {
                Some(arg) => Some(Operation::Flush { arg }),
                None => None,
            },
            Opcode::Init => match data.fetch::<InitIn>(abi) {
                Some(arg) => Some(Operation::Init { arg }),
                None => None,
            },
            Opcode::OpenDir => match data.fetch::<OpenIn>(abi) {
                Some(arg) => Some(Operation::OpenDir { arg }),
                None => None,
            },
            Opcode::ReadDir => match data.fetch::<ReadIn>(abi) {
                Some(arg) => Some(Operation::ReadDir { arg }),
                None => None,
            },
            Opcode::ReleaseDir => match data.fetch::<ReleaseIn>(abi) {
                Some(arg) => Some(Operation::ReleaseDir { arg }),
                None => None,
            },
            Opcode::FSyncDir => match data.fetch::<FsyncIn>(abi) {
                Some(arg) => Some(Operation::FSyncDir { arg }),
                None => None,
            },
            Opcode::GetLk => match data.fetch::<LkIn>(abi) {
                Some(arg) => Some(Operation::GetLk { arg }),
                None => None,
            },
            Opcode::SetLk => match data.fetch::<LkIn>(abi) {
                Some(arg) => Some(Operation::SetLk { arg }),
                None => None,
            },
            Opcode::SetLkW => match data.fetch::<LkIn>(abi) {
                Some(arg) => Some(Operation::SetLkW { arg }),
                None => None,
            },
            Opcode::Access => match data.fetch::<AccessIn>(abi) {
                Some(arg) => Some(Operation::Access { arg }),
                None => None,
            },
            Opcode::Create => match fetch_with_name::<CreateIn>(data, abi) {
                Some((arg, name)) => Some(Operation::Create { arg, name }),
                None => None,
            },
            Opcode::Interrupt => match data.fetch::<InterruptIn>(abi) {
                Some(arg) => Some(Operation::Interrupt { arg }),
                None => None,
            },
            Opcode::BMap => match data.fetch::<BmapIn>(abi) {
                Some(arg) => Some(Operation::BMap { arg }),
                None => None,
            },
            Opcode::Destroy => Some(Operation::Destroy),
            Opcode::SetVolName => match data.fetch_str() {
                Some(name) => Some(Operation::SetVolName { name }),
                None => None,
            },
            Opcode::GetXTimes => Some(Operation::GetXTimes),
            Opcode::Exchange => match fetch_with_two_names::<ExchangeIn>(data, abi) {
                Some((arg, oldname, newname)) => Some(
                    Operation::Exchange { arg, oldname, newname },
                ),
                None => None,
            },
        }
    }
}


/// Request of the kernel driver: the header of the packet and the operation
/// that it asks for.
#[derive(Debug, Clone, Copy)]
pub struct Request<'a> {
    header: InHeader,
    operation: Operation<'a>,
}

/// What a `Request` holds.
pub struct RequestView {
    pub header: InHeader,
    pub operation: OperationView,
}

impl<'a> View for Request<'a> {
    type V = RequestView;

    closed spec fn view(&self) -> RequestView {
        RequestView { header: self.header, operation: self.operation@ }
    }
}

/// The request that the packet `packet` holds, or the reason why it holds
/// none.
///
/// The header takes the first 40 bytes. The arguments of the operation are
/// read from the bytes between the header and the length that the header
/// announces: what lies behind that length is never looked at, and a
/// length below 40 leaves no room for any arguments.
pub open spec fn spec_decode(packet: Seq<u8>, abi: Abi) -> Result<RequestView, RequestError> {
    let header = InHeader::from_wire(packet, abi);
    if packet.len() < HEADER_SIZE {
        Err(RequestError::ShortReadHeader(packet.len() as usize))
    } else {
        match Opcode::of(header.opcode, abi.macos) {
            None => Err(RequestError::UnknownOperation(header.opcode)),
            Some(opcode) => {
                if packet.len() < header.len {
                    Err(RequestError::ShortRead(packet.len() as usize, header.len as usize))
                } else if header.len < HEADER_SIZE {
                    Err(RequestError::InsufficientData)
                } else {
                    match spec_parse(
                        opcode,
                        packet.subrange(HEADER_SIZE as int, header.len as int),
                        abi,
                    ) {
                        None => Err(RequestError::InsufficientData),
                        Some(operation) => Ok(RequestView { header, operation }),
                    }
                }
            },
        }
    }
}

impl<'a> Request<'a> {
    /// Decodes the packet `data`, which the kernel driver sent on a host
    /// with the protocol variant `abi`.
    pub fn try_from(data: &'a [u8], abi: Abi) -> (r: Result<Request<'a>, RequestError>)
        ensures
            match r {
                Ok(request) => spec_decode(data@, abi) == Ok::<RequestView, RequestError>(
                    request@,
                ),
                Err(e) => spec_decode(data@, abi) == Err::<RequestView, RequestError>(e),
            },
    {
        let data_len = data.len();
        let mut whole = ArgumentIterator::new(data);
        assert(whole.remaining() =~= data@);
        let header: InHeader = match whole.fetch::<InHeader>(abi) {
            Some(header) => header,
            None => return Err(RequestError::ShortReadHeader(whole.len())),
        };
        let opcode = match Opcode::from_code(header.opcode, abi.macos) {
            Some(opcode) => opcode,
            None => return Err(RequestError::UnknownOperation(header.opcode)),
        };
        let announced = header.len as usize;
        if data_len < announced {
            return Err(RequestError::ShortRead(data_len, announced));
        }
        if announced < HEADER_SIZE {
            return Err(RequestError::InsufficientData);
        }
        let mut arguments = ArgumentIterator::new(slice_subrange(data, HEADER_SIZE, announced));
        assert(arguments.remaining() =~= data@.subrange(HEADER_SIZE as int, announced as int));
        match Operation::parse(opcode, &mut arguments, abi) {
            Some(operation) => Ok(Request { header, operation }),
            None => Err(RequestError::InsufficientData),
        }
    }

    /// The header of the packet.
    pub fn header(&self) -> (h: &InHeader)
        ensures
            *h == self@.header,
    {
        &self.header
    }

    /// Returns the unique identifier of this request.
    ///
    /// The kernel driver gives every request that is under way an id of its
    /// own; an id may be used again once its request has completed.
    pub fn unique(&self) -> (id: u64)
        ensures
            id == self@.header.unique,
    {
        self.header.unique
    }

    /// Returns the node id of the inode this request is targeted to.
    pub fn nodeid(&self) -> (id: u64)
        ensures
            id == self@.header.nodeid,
    {
        self.header.nodeid
    }

    /// Returns the UID that the process that triggered this request runs under.
    pub fn uid(&self) -> (id: u32)
        ensures
            id == self@.header.uid,
    {
        self.header.uid
    }

    /// Returns the GID that the process that triggered this request runs under.
    pub fn gid(&self) -> (id: u32)
        ensures
            id == self@.header.gid,
    {
        self.header.gid
    }

    /// Returns the PID of the process that triggered this request.
    pub fn pid(&self) -> (id: u32)
        ensures
            id == self@.header.pid,
    {
        self.header.pid
    }

    /// Returns the filesystem operation (and its arguments) of this request.
    pub fn operation(&self) -> (op: &Operation<'a>)
        ensures
            op@ == self@.operation,
    {
        &self.operation
    }
}

} // verus!
