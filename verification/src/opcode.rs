//! Opcodes: the numbers by which the kernel names the operation of a request.

use vstd::prelude::*;

verus! {

/// The operations of the kernel protocol. The last three exist on macOS only.
#[derive(Debug, Clone, Copy, PartialEq, Eq, Structural)]
pub enum Opcode {
    Lookup,
    Forget,
    GetAttr,
    SetAttr,
    ReadLink,
    SymLink,
    MkNod,
    MkDir,
    Unlink,
    RmDir,
    Rename,
    Link,
    Open,
    Read,
    Write,
    StatFs,
    Release,
    FSync,
    SetXAttr,
    GetXAttr,
    ListXAttr,
    RemoveXAttr,
    Flush,
    Init,
    OpenDir,
    ReadDir,
    ReleaseDir,
    FSyncDir,
    GetLk,
    SetLk,
    SetLkW,
    Access,
    Create,
    Interrupt,
    BMap,
    Destroy,
    SetVolName,
    GetXTimes,
    Exchange,
}

impl Opcode {
    /// The number that stands for the operation on the wire.
    pub open spec fn code(self) -> u32 {
        match self {
            Opcode::Lookup => 1,
            Opcode::Forget => 2,
            Opcode::GetAttr => 3,
            Opcode::SetAttr => 4,
            Opcode::ReadLink => 5,
            Opcode::SymLink => 6,
            Opcode::MkNod => 8,
            Opcode::MkDir => 9,
            Opcode::Unlink => 10,
            Opcode::RmDir => 11,
            Opcode::Rename => 12,
            Opcode::Link => 13,
            Opcode::Open => 14,
            Opcode::Read => 15,
            Opcode::Write => 16,
            Opcode::StatFs => 17,
            Opcode::Release => 18,
            Opcode::FSync => 20,
            Opcode::SetXAttr => 21,
            Opcode::GetXAttr => 22,
            Opcode::ListXAttr => 23,
            Opcode::RemoveXAttr => 24,
            Opcode::Flush => 25,
            Opcode::Init => 26,
            Opcode::OpenDir => 27,
            Opcode::ReadDir => 28,
            Opcode::ReleaseDir => 29,
            Opcode::FSyncDir => 30,
            Opcode::GetLk => 31,
            Opcode::SetLk => 32,
            Opcode::SetLkW => 33,
            Opcode::Access => 34,
            Opcode::Create => 35,
            Opcode::Interrupt => 36,
            Opcode::BMap => 37,
            Opcode::Destroy => 38,
            Opcode::SetVolName => 61,
            Opcode::GetXTimes => 62,
            Opcode::Exchange => 63,
        }
    }

    /// True for the operations that only the macOS kernel driver sends.
    pub open spec fn macos_only(self) -> bool {
        self is SetVolName || self is GetXTimes || self is Exchange
    }

    /// The operation that `code` stands for, if there is one on a host that
    /// is (`macos`) or is not macOS.
    pub open spec fn of(code: u32, macos: bool) -> Option<Opcode> {
        if code == 1 {
            Some(Opcode::Lookup)
        } else if code == 2 {
            Some(Opcode::Forget)
        } else if code == 3 {
            Some(Opcode::GetAttr)
        } else if code == 4 {
            Some(Opcode::SetAttr)
        } else if code == 5 {
            Some(Opcode::ReadLink)
        } else if code == 6 {
            Some(Opcode::SymLink)
        } else if code == 8 {
            Some(Opcode::MkNod)
        } else if code == 9 {
            Some(Opcode::MkDir)
        } else if code == 10 {
            Some(Opcode::Unlink)
        } else if code == 11 {
            Some(Opcode::RmDir)
        } else if code == 12 {
            Some(Opcode::Rename)
        } else if code == 13 {
            Some(Opcode::Link)
        } else if code == 14 {
            Some(Opcode::Open)
        } else if code == 15 {
            Some(Opcode::Read)
        } else if code == 16 {
            Some(Opcode::Write)
        } else if code == 17 {
            Some(Opcode::StatFs)
        } else if code == 18 {
            Some(Opcode::Release)
        } else if code == 20 {
            Some(Opcode::FSync)
        } else if code == 21 {
            Some(Opcode::SetXAttr)
        } else if code == 22 {
            Some(Opcode::GetXAttr)
        } else if code == 23 {
            Some(Opcode::ListXAttr)
        } else if code == 24 {
            Some(Opcode::RemoveXAttr)
        } else if code == 25 {
            Some(Opcode::Flush)
        } else if code == 26 {
            Some(Opcode::Init)
        } else if code == 27 {
            Some(Opcode::OpenDir)
        } else if code == 28 {
            Some(Opcode::ReadDir)
        } else if code == 29 {
            Some(Opcode::ReleaseDir)
        } else if code == 30 {
            Some(Opcode::FSyncDir)
        } else if code == 31 {
            Some(Opcode::GetLk)
        } else if code == 32 {
            Some(Opcode::SetLk)
        } else if code == 33 {
            Some(Opcode::SetLkW)
        } else if code == 34 {
            Some(Opcode::Access)
        } else if code == 35 {
            Some(Opcode::Create)
        } else if code == 36 {
            Some(Opcode::Interrupt)
        } else if code == 37 {
            Some(Opcode::BMap)
        } else if code == 38 {
            Some(Opcode::Destroy)
        } else if macos && code == 61 {
            Some(Opcode::SetVolName)
        } else if macos && code == 62 {
            Some(Opcode::GetXTimes)
        } else if macos && code == 63 {
            Some(Opcode::Exchange)
        } else {
            None
        }
    }

    /// The number that stands for the operation on the wire.
    pub fn number(self) -> (c: u32)
        ensures
            c == self.code(),
    {
        match self {
            Opcode::Lookup => 1,
            Opcode::Forget => 2,
            Opcode::GetAttr => 3,
            Opcode::SetAttr => 4,
            Opcode::ReadLink => 5,
            Opcode::SymLink => 6,
            Opcode::MkNod => 8,
            Opcode::MkDir => 9,
            Opcode::Unlink => 10,
            Opcode::RmDir => 11,
            Opcode::Rename => 12,
            Opcode::Link => 13,
            Opcode::Open => 14,
            Opcode::Read => 15,
            Opcode::Write => 16,
            Opcode::StatFs => 17,
            Opcode::Release => 18,
            Opcode::FSync => 20,
            Opcode::SetXAttr => 21,
            Opcode::GetXAttr => 22,
            Opcode::ListXAttr => 23,
            Opcode::RemoveXAttr => 24,
            Opcode::Flush => 25,
            Opcode::Init => 26,
            Opcode::OpenDir => 27,
            Opcode::ReadDir => 28,
            Opcode::ReleaseDir => 29,
            Opcode::FSyncDir => 30,
            Opcode::GetLk => 31,
            Opcode::SetLk => 32,
            Opcode::SetLkW => 33,
            Opcode::Access => 34,
            Opcode::Create => 35,
            Opcode::Interrupt => 36,
            Opcode::BMap => 37,
            Opcode::Destroy => 38,
            Opcode::SetVolName => 61,
            Opcode::GetXTimes => 62,
            Opcode::Exchange => 63,
        }
    }

    /// Decodes an opcode. Every number that the protocol does not define
    /// for the host gives `None`: no number is taken for another.
    pub fn from_code(code: u32, macos: bool) -> (r: Option<Opcode>)
        ensures
            r == Opcode::of(code, macos),
            r matches Some(op) ==> op.code() == code && (op.macos_only() ==> macos),
            r is None ==> forall|op: Opcode| op.code() == code ==> op.macos_only() && !macos,
    {
        match code {
            1 => Some(Opcode::Lookup),
            2 => Some(Opcode::Forget),
            3 => Some(Opcode::GetAttr),
            4 => Some(Opcode::SetAttr),
            5 => Some(Opcode::ReadLink),
            6 => Some(Opcode::SymLink),
            8 => Some(Opcode::MkNod),
            9 => Some(Opcode::MkDir),
            10 => Some(Opcode::Unlink),
            11 => Some(Opcode::RmDir),
            12 => Some(Opcode::Rename),
            13 => Some(Opcode::Link),
            14 => Some(Opcode::Open),
            15 => Some(Opcode::Read),
            16 => Some(Opcode::Write),
            17 => Some(Opcode::StatFs),
            18 => Some(Opcode::Release),
            20 => Some(Opcode::FSync),
            21 => Some(Opcode::SetXAttr),
            22 => Some(Opcode::GetXAttr),
            23 => Some(Opcode::ListXAttr),
            24 => Some(Opcode::RemoveXAttr),
            25 => Some(Opcode::Flush),
            26 => Some(Opcode::Init),
            27 => Some(Opcode::OpenDir),
            28 => Some(Opcode::ReadDir),
            29 => Some(Opcode::ReleaseDir),
            30 => Some(Opcode::FSyncDir),
            31 => Some(Opcode::GetLk),
            32 => Some(Opcode::SetLk),
            33 => Some(Opcode::SetLkW),
            34 => Some(Opcode::Access),
            35 => Some(Opcode::Create),
            36 => Some(Opcode::Interrupt),
            37 => Some(Opcode::BMap),
            38 => Some(Opcode::Destroy),
            61 => if macos {
                Some(Opcode::SetVolName)
            } else {
                None
            },
            62 => if macos {
                Some(Opcode::GetXTimes)
            } else {
                None
            },
            63 => if macos {
                Some(Opcode::Exchange)
            } else {
                None
            },
            _ => None,
        }
    }
}

/// Decoding the number of an operation gives the operation back, on every
/// host that knows the operation.
pub proof fn lemma_opcode_round_trip(op: Opcode, macos: bool)
    requires
        op.macos_only() ==> macos,
    ensures
        Opcode::of(op.code(), macos) == Some(op),
{
}

/// A number decodes to an operation only if it is the number of that
/// operation, so two operations never share a number.
pub proof fn lemma_opcode_of_is_inverse(code: u32, macos: bool, op: Opcode)
    ensures
        Opcode::of(code, macos) == Some(op) <==> (op.code() == code && (op.macos_only() ==> macos)),
{
}

} // verus!
