//! Requests and operations as lines of text for a log.
//!
//! A line is made of pieces: text, and the names that the packet holds.
//! How a name is shown is left to the one who prints the line, for names
//! are bytes that need not be text.

use crate::request::{Operation, OperationView, Request};
use crate::text::{
    aligned_text, append_aligned, append_decimal, append_hex, append_octal, append_wide_hex,
    decimal_digits, hex_text, octal_text, wide_hex_text,
};
use vstd::prelude::*;
use vstd::string::StringExecFns;

verus! {

/// A piece of a line.
#[derive(Debug)]
pub enum Piece<'a> {
    /// Text to print as it is.
    Text(String),
    /// A name out of the packet, to show as the host shows file names.
    Name(&'a [u8]),
}

/// What a `Piece` holds.
pub enum PieceView {
    Text(Seq<char>),
    Name(Seq<u8>),
}

impl<'a> View for Piece<'a> {
    type V = PieceView;

    open spec fn view(&self) -> PieceView {
        match *self {
            Piece::Text(text) => PieceView::Text(text@),
            Piece::Name(name) => PieceView::Name(name@),
        }
    }
}

/// What the pieces of a line hold.
pub open spec fn line_view(pieces: Seq<Piece>) -> Seq<PieceView> {
    Seq::new(pieces.len(), |i: int| pieces[i]@)
}

/// The line that describes an operation: its name in capitals and, of its
/// arguments, those that tell one request from another.
pub open spec fn operation_line(operation: OperationView) -> Seq<PieceView> {
    match operation {
        OperationView::Lookup { name } => seq![
            PieceView::Text("LOOKUP name "@),
            PieceView::Name(name),
        ],
        OperationView::Forget { arg } => seq![
            PieceView::Text("FORGET nlookup "@ + decimal_digits(arg.nlookup as nat)),
        ],
        OperationView::GetAttr => seq![
            PieceView::Text("GETATTR"@),
        ],
        OperationView::SetAttr { arg } => seq![
            PieceView::Text("SETATTR valid "@ + hex_text(arg.valid as nat)),
        ],
        OperationView::ReadLink => seq![
            PieceView::Text("READLINK"@),
        ],
        OperationView::SymLink { name, link } => seq![
            PieceView::Text("SYMLINK name "@),
            PieceView::Name(name),
            PieceView::Text(", link "@),
            PieceView::Name(link),
        ],
        OperationView::MkNod { arg, name } => seq![
            PieceView::Text("MKNOD name "@),
            PieceView::Name(name),
            PieceView::Text(
                ", mode "@ + octal_text(arg.mode as nat) + ", rdev "@
                    + decimal_digits(arg.rdev as nat),
            ),
        ],
        OperationView::MkDir { arg, name } => seq![
            PieceView::Text("MKDIR name "@),
            PieceView::Name(name),
            PieceView::Text(", mode "@ + octal_text(arg.mode as nat)),
        ],
        OperationView::Unlink { name } => seq![
            PieceView::Text("UNLINK name "@),
            PieceView::Name(name),
        ],
        OperationView::RmDir { name } => seq![
            PieceView::Text("RMDIR name "@),
            PieceView::Name(name),
        ],
        OperationView::Rename { arg, name, newname } => seq![
            PieceView::Text("RENAME name "@),
            PieceView::Name(name),
            PieceView::Text(", newdir "@ + wide_hex_text(arg.newdir as nat) + ", newname "@),
            PieceView::Name(newname),
        ],
        OperationView::Link { arg, name } => seq![
            PieceView::Text("LINK name "@),
            PieceView::Name(name),
            PieceView::Text(", oldnodeid "@ + wide_hex_text(arg.oldnodeid as nat)),
        ],
        OperationView::Open { arg } => seq![
            PieceView::Text("OPEN flags "@ + hex_text(arg.flags as nat)),
        ],
        OperationView::Read { arg } => seq![
            PieceView::Text(
                "READ fh "@ + decimal_digits(arg.fh as nat) + ", offset "@
                    + decimal_digits(arg.offset as nat) + ", size "@
                    + decimal_digits(arg.size as nat),
            ),
        ],
        OperationView::Write { arg, .. } => seq![
            PieceView::Text(
                "WRITE fh "@ + decimal_digits(arg.fh as nat) + ", offset "@
                    + decimal_digits(arg.offset as nat) + ", size "@
                    + decimal_digits(arg.size as nat) + ", write flags "@
                    + hex_text(arg.write_flags as nat),
            ),
        ],
        OperationView::StatFs => seq![
            PieceView::Text("STATFS"@),
        ],
        OperationView::Release { arg } => seq![
            PieceView::Text(
                "RELEASE fh "@ + decimal_digits(arg.fh as nat) + ", flags "@
                    + hex_text(arg.flags as nat) + ", release flags "@
                    + hex_text(arg.release_flags as nat) + ", lock owner "@
                    + decimal_digits(arg.lock_owner as nat),
            ),
        ],
        OperationView::FSync { arg } => seq![
            PieceView::Text(
                "FSYNC fh "@ + decimal_digits(arg.fh as nat) + ", fsync flags "@
                    + hex_text(arg.fsync_flags as nat),
            ),
        ],
        OperationView::SetXAttr { arg, name, .. } => seq![
            PieceView::Text("SETXATTR name "@),
            PieceView::Name(name),
            PieceView::Text(
                ", size "@ + decimal_digits(arg.size as nat) + ", flags "@
                    + hex_text(arg.flags as nat),
            ),
        ],
        OperationView::GetXAttr { arg, name } => seq![
            PieceView::Text("GETXATTR name "@),
            PieceView::Name(name),
            PieceView::Text(", size "@ + decimal_digits(arg.size as nat)),
        ],
        OperationView::ListXAttr { arg } => seq![
            PieceView::Text("LISTXATTR size "@ + decimal_digits(arg.size as nat)),
        ],
        OperationView::RemoveXAttr { name } => seq![
            PieceView::Text("REMOVEXATTR name "@),
            PieceView::Name(name),
        ],
        OperationView::Flush { arg } => seq![
            PieceView::Text(
                "FLUSH fh "@ + decimal_digits(arg.fh as nat) + ", lock owner "@
                    + decimal_digits(arg.lock_owner as nat),
            ),
        ],
        OperationView::Init { arg } => seq![
            PieceView::Text(
                "INIT kernel ABI "@ + decimal_digits(arg.major as nat) + "."@
                    + decimal_digits(arg.minor as nat) + ", flags "@ + hex_text(arg.flags as nat)
                    + ", max readahead "@ + decimal_digits(arg.max_readahead as nat),
            ),
        ],
        OperationView::OpenDir { arg } => seq![
            PieceView::Text("OPENDIR flags "@ + hex_text(arg.flags as nat)),
        ],
        OperationView::ReadDir { arg } => seq![
            PieceView::Text(
                "READDIR fh "@ + decimal_digits(arg.fh as nat) + ", offset "@
                    + decimal_digits(arg.offset as nat) + ", size "@
                    + decimal_digits(arg.size as nat),
            ),
        ],
        OperationView::ReleaseDir { arg } => seq![
            PieceView::Text(
                "RELEASEDIR fh "@ + decimal_digits(arg.fh as nat) + ", flags "@
                    + hex_text(arg.flags as nat) + ", release flags "@
                    + hex_text(arg.release_flags as nat) + ", lock owner "@
                    + decimal_digits(arg.lock_owner as nat),
            ),
        ],
        OperationView::FSyncDir { arg } => seq![
            PieceView::Text(
                "FSYNCDIR fh "@ + decimal_digits(arg.fh as nat) + ", fsync flags "@
                    + hex_text(arg.fsync_flags as nat),
            ),
        ],
        OperationView::GetLk { arg } => seq![
            PieceView::Text(
                "GETLK fh "@ + decimal_digits(arg.fh as nat) + ", lock owner "@
                    + decimal_digits(arg.owner as nat),
            ),
        ],
        OperationView::SetLk { arg } => seq![
            PieceView::Text(
                "SETLK fh "@ + decimal_digits(arg.fh as nat) + ", lock owner "@
                    + decimal_digits(arg.owner as nat),
            ),
        ],
        OperationView::SetLkW { arg } => seq![
            PieceView::Text(
                "SETLKW fh "@ + decimal_digits(arg.fh as nat) + ", lock owner "@
                    + decimal_digits(arg.owner as nat),
            ),
        ],
        OperationView::Access { arg } => seq![
            PieceView::Text("ACCESS mask "@ + octal_text(arg.mask as nat)),
        ],
        OperationView::Create { arg, name } => seq![
            PieceView::Text("CREATE name "@),
            PieceView::Name(name),
            PieceView::Text(
                ", mode "@ + octal_text(arg.mode as nat) + ", flags "@
                    + hex_text(arg.flags as nat),
            ),
        ],
        OperationView::Interrupt { arg } => seq![
            PieceView::Text("INTERRUPT unique "@ + decimal_digits(arg.unique as nat)),
        ],
        OperationView::BMap { arg } => seq![
            PieceView::Text(
                "BMAP blocksize "@ + decimal_digits(arg.blocksize as nat) + ", ids "@
                    + decimal_digits(arg.block as nat),
            ),
        ],
        OperationView::Destroy => seq![
            PieceView::Text("DESTROY"@),
        ],
        OperationView::SetVolName { name } => seq![
            PieceView::Text("SETVOLNAME name "@),
            PieceView::Name(name),
        ],
        OperationView::GetXTimes => seq![
            PieceView::Text("GETXTIMES"@),
        ],
        OperationView::Exchange { arg, oldname, newname } => seq![
            PieceView::Text("EXCHANGE olddir "@ + wide_hex_text(arg.olddir as nat) + ", oldname "@),
            PieceView::Name(oldname),
            PieceView::Text(", newdir "@ + wide_hex_text(arg.newdir as nat) + ", newname "@),
            PieceView::Name(newname),
            PieceView::Text(", options "@ + hex_text(arg.options as nat)),
        ],
    }
}

impl<'a> Operation<'a> {
    /// Describes the operation in one line.
    pub fn describe(&self) -> (line: Vec<Piece<'a>>)
        ensures
            line_view(line@) == operation_line(self@),
    {
        let line = match self {
            Operation::Lookup { name } => vec![
                Piece::Text(String::from_str("LOOKUP name ")),
                Piece::Name(*name),
            ],
            Operation::Forget { arg } => {
                let mut text = String::from_str("FORGET nlookup ");
                append_decimal(&mut text, arg.nlookup);
                vec![Piece::Text(text)]
            },
            Operation::GetAttr => vec![Piece::Text(String::from_str("GETATTR"))],
            Operation::SetAttr { arg } => {
                let mut text = String::from_str("SETATTR valid ");
                append_hex(&mut text, arg.valid as u64);
                vec![Piece::Text(text)]
            },
            Operation::ReadLink => vec![Piece::Text(String::from_str("READLINK"))],
            Operation::SymLink { name, link } => vec![
                Piece::Text(String::from_str("SYMLINK name ")),
                Piece::Name(*name),
                Piece::Text(String::from_str(", link ")),
                Piece::Name(*link),
            ],
            Operation::MkNod { arg, name } => {
                let mut text = String::from_str(", mode ");
                append_octal(&mut text, arg.mode as u64);
                text.append(", rdev ");
                append_decimal(&mut text, arg.rdev as u64);
                vec![
                    Piece::Text(String::from_str("MKNOD name ")),
                    Piece::Name(*name),
                    Piece::Text(text),
                ]
            },
            Operation::MkDir { arg, name } => {
                let mut text = String::from_str(", mode ");
                append_octal(&mut text, arg.mode as u64);
                vec![
                    Piece::Text(String::from_str("MKDIR name ")),
                    Piece::Name(*name),
                    Piece::Text(text),
                ]
            },
            Operation::Unlink { name } => vec![
                Piece::Text(String::from_str("UNLINK name ")),
                Piece::Name(*name),
            ],
            Operation::RmDir { name } => vec![
                Piece::Text(String::from_str("RMDIR name ")),
                Piece::Name(*name),
            ],
            Operation::Rename { arg, name, newname } => {
                let mut text = String::from_str(", newdir ");
                append_wide_hex(&mut text, arg.newdir);
                text.append(", newname ");
                vec![
                    Piece::Text(String::from_str("RENAME name ")),
                    Piece::Name(*name),
                    Piece::Text(text),
                    Piece::Name(*newname),
                ]
            },
            Operation::Link { arg, name } => {
                let mut text = String::from_str(", oldnodeid ");
                append_wide_hex(&mut text, arg.oldnodeid);
                vec![
                    Piece::Text(String::from_str("LINK name ")),
                    Piece::Name(*name),
                    Piece::Text(text),
                ]
            },
            Operation::Open { arg } => {
                let mut text = String::from_str("OPEN flags ");
                append_hex(&mut text, arg.flags as u64);
                vec![Piece::Text(text)]
            },
            Operation::Read { arg } => {
                let mut text = String::from_str("READ fh ");
                append_decimal(&mut text, arg.fh);
                text.append(", offset ");
                append_decimal(&mut text, arg.offset);
                text.append(", size ");
                append_decimal(&mut text, arg.size as u64);
                vec![Piece::Text(text)]
            },
            Operation::Write { arg, .. } => {
                let mut text = String::from_str("WRITE fh ");
                append_decimal(&mut text, arg.fh);
                text.append(", offset ");
                append_decimal(&mut text, arg.offset);
                text.append(", size ");
                append_decimal(&mut text, arg.size as u64);
                text.append(", write flags ");
                append_hex(&mut text, arg.write_flags as u64);
                vec![Piece::Text(text)]
            },
            Operation::StatFs => vec![Piece::Text(String::from_str("STATFS"))],
            Operation::Release { arg } => {
                let mut text = String::from_str("RELEASE fh ");
                append_decimal(&mut text, arg.fh);
                text.append(", flags ");
                append_hex(&mut text, arg.flags as u64);
                text.append(", release flags ");
                append_hex(&mut text, arg.release_flags as u64);
                text.append(", lock owner ");
                append_decimal(&mut text, arg.lock_owner);
                vec![Piece::Text(text)]
            },
            Operation::FSync { arg } => {
                let mut text = String::from_str("FSYNC fh ");
                append_decimal(&mut text, arg.fh);
                text.append(", fsync flags ");
                append_hex(&mut text, arg.fsync_flags as u64);
                vec![Piece::Text(text)]
            },
            Operation::SetXAttr { arg, name, .. } => {
                let mut text = String::from_str(", size ");
                append_decimal(&mut text, arg.size as u64);
                text.append(", flags ");
                append_hex(&mut text, arg.flags as u64);
                vec![
                    Piece::Text(String::from_str("SETXATTR name ")),
                    Piece::Name(*name),
                    Piece::Text(text),
                ]
            },
            Operation::GetXAttr { arg, name } => {
                let mut text = String::from_str(", size ");
                append_decimal(&mut text, arg.size as u64);
                vec![
                    Piece::Text(String::from_str("GETXATTR name ")),
                    Piece::Name(*name),
                    Piece::Text(text),
                ]
            },
            Operation::ListXAttr { arg } => {
                let mut text = String::from_str("LISTXATTR size ");
                append_decimal(&mut text, arg.size as u64);
                vec![Piece::Text(text)]
            },
            Operation::RemoveXAttr { name } => vec![
                Piece::Text(String::from_str("REMOVEXATTR name ")),
                Piece::Name(*name),
            ],
            Operation::Flush { arg } => {
                let mut text = String::from_str("FLUSH fh ");
                append_decimal(&mut text, arg.fh);
                text.append(", lock owner ");
                append_decimal(&mut text, arg.lock_owner);
                vec![Piece::Text(text)]
            },
            Operation::Init { arg } => {
                let mut text = String::from_str("INIT kernel ABI ");
                append_decimal(&mut text, arg.major as u64);
                text.append(".");
                append_decimal(&mut text, arg.minor as u64);
                text.append(", flags ");
                append_hex(&mut text, arg.flags as u64);
                text.append(", max readahead ");
                append_decimal(&mut text, arg.max_readahead as u64);
                vec![Piece::Text(text)]
            },
            Operation::OpenDir { arg } => {
                let mut text = String::from_str("OPENDIR flags ");
                append_hex(&mut text, arg.flags as u64);
                vec![Piece::Text(text)]
            },
            Operation::ReadDir { arg } => {
                let mut text = String::from_str("READDIR fh ");
                append_decimal(&mut text, arg.fh);
                text.append(", offset ");
                append_decimal(&mut text, arg.offset);
                text.append(", size ");
                append_decimal(&mut text, arg.size as u64);
                vec![Piece::Text(text)]
            },
            Operation::ReleaseDir { arg } => {
                let mut text = String::from_str("RELEASEDIR fh ");
                append_decimal(&mut text, arg.fh);
                text.append(", flags ");
                append_hex(&mut text, arg.flags as u64);
                text.append(", release flags ");
                append_hex(&mut text, arg.release_flags as u64);
                text.append(", lock owner ");
                append_decimal(&mut text, arg.lock_owner);
                vec![Piece::Text(text)]
            },
            Operation::FSyncDir { arg } => {
                let mut text = String::from_str("FSYNCDIR fh ");
                append_decimal(&mut text, arg.fh);
                text.append(", fsync flags ");
                append_hex(&mut text, arg.fsync_flags as u64);
                vec![Piece::Text(text)]
            },
            Operation::GetLk { arg } => {
                let mut text = String::from_str("GETLK fh ");
                append_decimal(&mut text, arg.fh);
                text.append(", lock owner ");
                append_decimal(&mut text, arg.owner);
                vec![Piece::Text(text)]
            },
            Operation::SetLk { arg } => {
                let mut text = String::from_str("SETLK fh ");
                append_decimal(&mut text, arg.fh);
                text.append(", lock owner ");
                append_decimal(&mut text, arg.owner);
                vec![Piece::Text(text)]
            },
            Operation::SetLkW { arg } => {
                let mut text = String::from_str("SETLKW fh ");
                append_decimal(&mut text, arg.fh);
                text.append(", lock owner ");
                append_decimal(&mut text, arg.owner);
                vec![Piece::Text(text)]
            },
            Operation::Access { arg } => {
                let mut text = String::from_str("ACCESS mask ");
                append_octal(&mut text, arg.mask as u64);
                vec![Piece::Text(text)]
            },
            Operation::Create { arg, name } => {
                let mut text = String::from_str(", mode ");
                append_octal(&mut text, arg.mode as u64);
                text.append(", flags ");
                append_hex(&mut text, arg.flags as u64);
                vec![
                    Piece::Text(String::from_str("CREATE name ")),
                    Piece::Name(*name),
                    Piece::Text(text),
                ]
            },
            Operation::Interrupt { arg } => {
                let mut text = String::from_str("INTERRUPT unique ");
                append_decimal(&mut text, arg.unique);
                vec![Piece::Text(text)]
            },
            Operation::BMap { arg } => {
                let mut text = String::from_str("BMAP blocksize ");
                append_decimal(&mut text, arg.blocksize as u64);
                text.append(", ids ");
                append_decimal(&mut text, arg.block);
                vec![Piece::Text(text)]
            },
            Operation::Destroy => vec![Piece::Text(String::from_str("DESTROY"))],
            Operation::SetVolName { name } => vec![
                Piece::Text(String::from_str("SETVOLNAME name ")),
                Piece::Name(*name),
            ],
            Operation::GetXTimes => vec![Piece::Text(String::from_str("GETXTIMES"))],
            Operation::Exchange { arg, oldname, newname } => {
                let mut text0 = String::from_str("EXCHANGE olddir ");
                append_wide_hex(&mut text0, arg.olddir);
                text0.append(", oldname ");
                let mut text1 = String::from_str(", newdir ");
                append_wide_hex(&mut text1, arg.newdir);
                text1.append(", newname ");
                let mut text2 = String::from_str(", options ");
                append_hex(&mut text2, arg.options);
                vec![
                    Piece::Text(text0),
                    Piece::Name(*oldname),
                    Piece::Text(text1),
                    Piece::Name(*newname),
                    Piece::Text(text2),
                ]
            },
        };
        assert(line_view(line@) =~= operation_line(self@));
        line
    }
}

/// The line that describes a request: its id, the node it is aimed at,
/// and its operation.
pub open spec fn request_line(unique: u64, nodeid: u64, operation: OperationView) -> Seq<
    PieceView,
> {
    operation_line(operation).insert(
        0,
        PieceView::Text(
            "FUSE("@ + aligned_text(unique as nat) + ") ino "@ + wide_hex_text(nodeid as nat)
                + ": "@,
        ),
    )
}

impl<'a> Request<'a> {
    /// Describes the request in one line.
    pub fn describe(&self) -> (line: Vec<Piece<'a>>)
        ensures
            line_view(line@) == request_line(
                self@.header.unique,
                self@.header.nodeid,
                self@.operation,
            ),
    {
        let mut text = String::from_str("FUSE(");
        append_aligned(&mut text, self.unique());
        text.append(") ino ");
        append_wide_hex(&mut text, self.nodeid());
        text.append(": ");
        let mut line = self.operation().describe();
        let ghost rest = line_view(line@);
        line.insert(0, Piece::Text(text));
        assert(line_view(line@) =~= rest.insert(0, PieceView::Text(text@)));
        line
    }
}

} // verus!
