//! The messages that the nodes of a cluster send each other: the requests
//! of a peer and the responses to them.

use crate::meta::{DirEntry, DirEntryView, FileAttr, FileKind};
use vstd::prelude::*;

verus! {

/// The view of an optional byte string.
pub open spec fn opt_view(bytes: Option<Vec<u8>>) -> Option<Seq<u8>> {
    match bytes {
        Some(b) => Some(b@),
        None => None,
    }
}

/// Names a block of the content cache: a file and the index of the block.
#[derive(Debug)]
pub struct OpArgs {
    pub file_name: Vec<u8>,
    pub index: u64,
}

/// What an `OpArgs` holds.
pub struct OpArgsView {
    pub file_name: Seq<u8>,
    pub index: u64,
}

impl View for OpArgs {
    type V = OpArgsView;

    open spec fn view(&self) -> OpArgsView {
        OpArgsView { file_name: self.file_name@, index: self.index }
    }
}

/// Arguments of `UpdateDir`: the child to attach and the directory that
/// gets it.
#[derive(Debug)]
pub struct UpdateDirArgs {
    pub parent_path: Vec<u8>,
    pub child_name: Vec<u8>,
    pub child_attr: FileAttr,
    pub target_path: Option<Vec<u8>>,
}

/// What an `UpdateDirArgs` holds.
pub struct UpdateDirArgsView {
    pub parent_path: Seq<u8>,
    pub child_name: Seq<u8>,
    pub child_attr: FileAttr,
    pub target_path: Option<Seq<u8>>,
}

impl View for UpdateDirArgs {
    type V = UpdateDirArgsView;

    open spec fn view(&self) -> UpdateDirArgsView {
        UpdateDirArgsView {
            parent_path: self.parent_path@,
            child_name: self.child_name@,
            child_attr: self.child_attr,
            target_path: opt_view(self.target_path),
        }
    }
}

/// Arguments of `RemoveDirEntry`: the entry to detach and the directory
/// that loses it.
#[derive(Debug)]
pub struct RemoveDirEntryArgs {
    pub parent_path: Vec<u8>,
    pub child_name: Vec<u8>,
}

/// What a `RemoveDirEntryArgs` holds.
pub struct RemoveDirEntryArgsView {
    pub parent_path: Seq<u8>,
    pub child_name: Seq<u8>,
}

impl View for RemoveDirEntryArgs {
    type V = RemoveDirEntryArgsView;

    open spec fn view(&self) -> RemoveDirEntryArgsView {
        RemoveDirEntryArgsView { parent_path: self.parent_path@, child_name: self.child_name@ }
    }
}

/// Arguments of `Remove`: a child of known kind and the inode number of
/// its directory.
#[derive(Debug)]
pub struct RemoveArgs {
    pub parent: u64,
    pub child_name: Vec<u8>,
    pub child_type: FileKind,
}

/// What a `RemoveArgs` holds.
pub struct RemoveArgsView {
    pub parent: u64,
    pub child_name: Seq<u8>,
    pub child_type: FileKind,
}

impl View for RemoveArgs {
    type V = RemoveArgsView;

    open spec fn view(&self) -> RemoveArgsView {
        RemoveArgsView {
            parent: self.parent,
            child_name: self.child_name@,
            child_type: self.child_type,
        }
    }
}

/// Arguments of `Rename`: the entry to move and where it goes.
#[derive(Debug)]
pub struct RenameParam {
    pub old_parent: u64,
    pub old_name: Vec<u8>,
    pub new_parent: u64,
    pub new_name: Vec<u8>,
    pub flags: u32,
}

/// What a `RenameParam` holds.
pub struct RenameParamView {
    pub old_parent: u64,
    pub old_name: Seq<u8>,
    pub new_parent: u64,
    pub new_name: Seq<u8>,
    pub flags: u32,
}

impl View for RenameParam {
    type V = RenameParamView;

    open spec fn view(&self) -> RenameParamView {
        RenameParamView {
            old_parent: self.old_parent,
            old_name: self.old_name@,
            new_parent: self.new_parent,
            new_name: self.new_name@,
            flags: self.flags,
        }
    }
}

/// Request of a peer node.
#[derive(Debug)]
pub enum DistRequest {
    /// Shut the server down; served only to the server itself.
    TurnOff,
    /// Drop a block of the content cache.
    Invalidate(OpArgs),
    /// Tell whether a block is in the content cache, and which.
    CheckAvailable(OpArgs),
    /// Hand out the bytes of a cached block.
    Read(OpArgs),
    /// Hand out the entries of the directory at a path.
    LoadDir(Vec<u8>),
    /// Attach a child to a directory.
    UpdateDir(UpdateDirArgs),
    /// Detach an entry from a directory.
    RemoveDirEntry(RemoveDirEntryArgs),
    /// Hand out the attributes of the node at a path.
    GetFileAttr(Vec<u8>),
    /// Replace the attributes of the node at a path.
    PushFileAttr((Vec<u8>, FileAttr)),
    /// Rename an entry.
    Rename(RenameParam),
    /// Remove a child of a directory.
    Remove(RemoveArgs),
    /// Hand out the inode counter.
    GetInodeNum,
}

/// What a `DistRequest` holds.
pub enum DistRequestView {
    TurnOff,
    Invalidate(OpArgsView),
    CheckAvailable(OpArgsView),
    Read(OpArgsView),
    LoadDir(Seq<u8>),
    UpdateDir(UpdateDirArgsView),
    RemoveDirEntry(RemoveDirEntryArgsView),
    GetFileAttr(Seq<u8>),
    PushFileAttr((Seq<u8>, FileAttr)),
    Rename(RenameParamView),
    Remove(RemoveArgsView),
    GetInodeNum,
}

impl View for DistRequest {
    type V = DistRequestView;

    open spec fn view(&self) -> DistRequestView {
        match *self {
            DistRequest::TurnOff => DistRequestView::TurnOff,
            DistRequest::Invalidate(args) => DistRequestView::Invalidate(args@),
            DistRequest::CheckAvailable(args) => DistRequestView::CheckAvailable(args@),
            DistRequest::Read(args) => DistRequestView::Read(args@),
            DistRequest::LoadDir(path) => DistRequestView::LoadDir(path@),
            DistRequest::UpdateDir(args) => DistRequestView::UpdateDir(args@),
            DistRequest::RemoveDirEntry(args) => DistRequestView::RemoveDirEntry(args@),
            DistRequest::GetFileAttr(path) => DistRequestView::GetFileAttr(path@),
            DistRequest::PushFileAttr((path, attr)) => DistRequestView::PushFileAttr(
                (path@, attr),
            ),
            DistRequest::Rename(args) => DistRequestView::Rename(args@),
            DistRequest::Remove(args) => DistRequestView::Remove(args@),
            DistRequest::GetInodeNum => DistRequestView::GetInodeNum,
        }
    }
}

/// The views of the entries of a listing.
pub open spec fn entries_view(entries: Seq<DirEntry>) -> Seq<DirEntryView> {
    Seq::new(entries.len(), |i: int| entries[i]@)
}

/// Response to a request of a peer node.
#[derive(Debug)]
pub enum Response {
    /// The server shuts down.
    TurnOff,
    /// The block was dropped.
    Invalidate,
    /// The indexes of the blocks that are cached, or `None` if the block
    /// asked for is not.
    CheckAvailable(Option<Vec<u64>>),
    /// The entries of the directory, or `None` if there is no such node.
    LoadDir(Option<Vec<DirEntry>>),
    /// The directory was updated, or an entry was taken from it.
    UpdateDir,
    /// The attributes of the node, or `None` if there is no such node.
    GetAttr(Option<FileAttr>),
    /// The attributes were replaced.
    PushAttr,
    /// The entry was renamed.
    Rename,
    /// The child was removed.
    Remove,
}

/// What a `Response` holds.
pub enum ResponseView {
    TurnOff,
    Invalidate,
    CheckAvailable(Option<Seq<u64>>),
    LoadDir(Option<Seq<DirEntryView>>),
    UpdateDir,
    GetAttr(Option<FileAttr>),
    PushAttr,
    Rename,
    Remove,
}

impl View for Response {
    type V = ResponseView;

    open spec fn view(&self) -> ResponseView {
        match *self {
            Response::TurnOff => ResponseView::TurnOff,
            Response::Invalidate => ResponseView::Invalidate,
            Response::CheckAvailable(blocks) => ResponseView::CheckAvailable(
                match blocks {
                    Some(b) => Some(b@),
                    None => None,
                },
            ),
            Response::LoadDir(entries) => ResponseView::LoadDir(
                match entries {
                    Some(e) => Some(entries_view(e@)),
                    None => None,
                },
            ),
            Response::UpdateDir => ResponseView::UpdateDir,
            Response::GetAttr(attr) => ResponseView::GetAttr(attr),
            Response::PushAttr => ResponseView::PushAttr,
            Response::Rename => ResponseView::Rename,
            Response::Remove => ResponseView::Remove,
        }
    }
}

} // verus!
