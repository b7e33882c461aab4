//! What the peer server does with a request once it has been read: the
//! handlers that work on the metadata maps and compute the response.
//!
//! A handler takes the maps it needs, shared or exclusive as its signature
//! says, and returns the response to send. It never blocks and never
//! touches the network.

use crate::bytes::copy_bytes;
use crate::meta::{
    child_path, is_listing_of, Child, FileAttr, InodeMap, Node, NodeView, PathMap,
};
use crate::peer::{
    RemoveDirEntryArgs, RemoveDirEntryArgsView, Response, ResponseView, UpdateDirArgs,
    UpdateDirArgsView,
};
use vstd::prelude::*;

verus! {

/// The node that `path` leads to: the path is known and a record stands
/// under its inode number.
pub open spec fn resolves(
    paths: Map<Seq<u8>, u64>,
    inodes: Map<u64, NodeView>,
    path: Seq<u8>,
) -> bool {
    paths.contains_key(path) && inodes.contains_key(paths[path])
}

/// The record of the child that `UpdateDir` attaches under `parent`.
pub open spec fn new_child(parent: NodeView, args: UpdateDirArgsView) -> NodeView {
    NodeView {
        attr: args.child_attr,
        full_path: child_path(parent.full_path, args.child_name),
        dir: Map::<Seq<u8>, Child>::empty(),
        target: args.target_path,
    }
}

/// The two maps after `UpdateDir`. Where the parent's path resolves, the
/// parent gets an entry for the child, the child's path leads to the
/// child's inode number, and the child's record stands under that number.
/// Where it does not resolve, nothing changes.
pub open spec fn spec_update_dir(
    paths: Map<Seq<u8>, u64>,
    inodes: Map<u64, NodeView>,
    args: UpdateDirArgsView,
) -> (Map<Seq<u8>, u64>, Map<u64, NodeView>) {
    if resolves(paths, inodes, args.parent_path) {
        let parent_ino = paths[args.parent_path];
        let parent = inodes[parent_ino];
        let child = new_child(parent, args);
        let entry = Child { ino: child.attr.ino, kind: child.attr.kind };
        let parent_after = NodeView { dir: parent.dir.insert(args.child_name, entry), ..parent };
        (
            paths.insert(child.full_path, child.attr.ino),
            inodes.insert(parent_ino, parent_after).insert(child.attr.ino, child),
        )
    } else {
        (paths, inodes)
    }
}

/// The inode map after `RemoveDirEntry`: where the parent's path resolves,
/// the parent's directory has lost the entry of that name.
pub open spec fn spec_remove_dir_entry(
    paths: Map<Seq<u8>, u64>,
    inodes: Map<u64, NodeView>,
    args: RemoveDirEntryArgsView,
) -> Map<u64, NodeView> {
    if resolves(paths, inodes, args.parent_path) {
        let parent_ino = paths[args.parent_path];
        let parent = inodes[parent_ino];
        inodes.insert(parent_ino, NodeView { dir: parent.dir.remove(args.child_name), ..parent })
    } else {
        inodes
    }
}

/// The inode map after `PushFileAttr`: where the path resolves, the node
/// has the attributes `attr`, but for the inode number, which it keeps.
pub open spec fn spec_push_attr(
    paths: Map<Seq<u8>, u64>,
    inodes: Map<u64, NodeView>,
    path: Seq<u8>,
    attr: FileAttr,
) -> Map<u64, NodeView> {
    if resolves(paths, inodes, path) {
        let ino = paths[path];
        let node = inodes[ino];
        inodes.insert(ino, NodeView { attr: FileAttr { ino: node.attr.ino, ..attr }, ..node })
    } else {
        inodes
    }
}

/// Acknowledges a request to shut down.
pub fn turnoff() -> (reply: Response)
    ensures
        reply@ == ResponseView::TurnOff,
{
    Response::TurnOff
}

/// Reports what the content cache said of a block: `available.0` names
/// the cached blocks, `available.1` says whether the block asked for is
/// among them.
pub fn check_available(available: (Vec<u64>, bool)) -> (reply: Response)
    ensures
        reply@ == ResponseView::CheckAvailable(
            if available.1 {
                Some(available.0@)
            } else {
                None
            },
        ),
{
    if available.1 {
        Response::CheckAvailable(Some(available.0))
    } else {
        Response::CheckAvailable(None)
    }
}

/// Lists the directory at `path`. Replies `None` where the path is not
/// known or no record stands under its inode number.
pub fn load_dir(paths: &PathMap, inodes: &InodeMap, path: &[u8]) -> (reply: Response)
    requires
        paths.wf(),
        inodes.wf(),
    ensures
        match reply {
            Response::LoadDir(Some(entries)) => resolves(paths@, inodes@, path@) && is_listing_of(
                entries@,
                inodes@[paths@[path@]].dir,
            ),
            Response::LoadDir(None) => !resolves(paths@, inodes@, path@),
            _ => false,
        },
{
    match paths.get(path) {
        None => Response::LoadDir(None),
        Some(inum) => match inodes.get(*inum) {
            None => Response::LoadDir(None),
            Some(node) => Response::LoadDir(Some(node.get_dir_data())),
        },
    }
}

/// Attaches a child to the directory at `args.parent_path`, if that path
/// resolves, and acknowledges in either case.
pub fn update_dir(paths: &mut PathMap, inodes: &mut InodeMap, args: UpdateDirArgs) -> (reply:
    Response)
    requires
        old(paths).wf(),
        old(inodes).wf(),
    ensures
        final(paths).wf(),
        final(inodes).wf(),
        (final(paths)@, final(inodes)@) == spec_update_dir(old(paths)@, old(inodes)@, args@),
        reply@ == ResponseView::UpdateDir,
{
    let parent_ino = match paths.get(args.parent_path.as_slice()) {
        Some(inum) => *inum,
        None => return Response::UpdateDir,
    };
    let mut parent_node = match inodes.remove(parent_ino) {
        Some(node) => node,
        None => {
            assert(inodes@ =~= old(inodes)@);
            return Response::UpdateDir;
        },
    };
    let child_node = Node::new_child_node_of_parent(
        &parent_node,
        args.child_name.as_slice(),
        args.child_attr,
        args.target_path,
    );
    let child_ino = child_node.get_ino();
    let child_type = child_node.get_type();
    // Add to parent node
    parent_node.insert_entry(args.child_name, Child { ino: child_ino, kind: child_type });
    inodes.insert(parent_ino, parent_node);
    // Add child to the maps
    paths.insert(copy_bytes(child_node.full_path()), child_ino);
    inodes.insert(child_ino, child_node);
    assert(inodes@ =~= spec_update_dir(old(paths)@, old(inodes)@, args@).1);
    Response::UpdateDir
}

/// Detaches the entry `args.child_name` from the directory at
/// `args.parent_path`, if that path resolves and the entry is there, and
/// acknowledges in either case.
pub fn remove_dir_entry(paths: &PathMap, inodes: &mut InodeMap, args: RemoveDirEntryArgs) -> (reply:
    Response)
    requires
        paths.wf(),
        old(inodes).wf(),
    ensures
        final(inodes).wf(),
        final(inodes)@ == spec_remove_dir_entry(paths@, old(inodes)@, args@),
        reply@ == ResponseView::UpdateDir,
{
    if let Some(parent_inum) = paths.get(args.parent_path.as_slice()) {
        match inodes.remove(*parent_inum) {
            Some(mut parent_node) => {
                parent_node.remove_entry(args.child_name.as_slice());
                inodes.insert(*parent_inum, parent_node);
                assert(inodes@ =~= spec_remove_dir_entry(paths@, old(inodes)@, args@));
            },
            None => {
                assert(inodes@ =~= old(inodes)@);
            },
        }
    }
    Response::UpdateDir
}

/// Hands out the attributes of the node at `path`. Replies `None` where
/// the path is not known or no record stands under its inode number.
pub fn get_attr(paths: &PathMap, inodes: &InodeMap, path: &[u8]) -> (reply: Response)
    requires
        paths.wf(),
        inodes.wf(),
    ensures
        reply@ == ResponseView::GetAttr(
            if resolves(paths@, inodes@, path@) {
                Some(inodes@[paths@[path@]].attr)
            } else {
                None
            },
        ),
{
    if let Some(inum) = paths.get(path) {
        if let Some(node) = inodes.get(*inum) {
            let attr = node.get_attr();
            return Response::GetAttr(Some(attr));
        }
    }
    Response::GetAttr(None)
}

/// Gives the node at `path` the attributes `attr`, if the path resolves,
/// and acknowledges in either case. The node keeps its inode number:
/// every other attribute comes from `attr`.
pub fn push_attr(paths: &PathMap, inodes: &mut InodeMap, path: &[u8], attr: &FileAttr) -> (reply:
    Response)
    requires
        paths.wf(),
        old(inodes).wf(),
    ensures
        final(inodes).wf(),
        final(inodes)@ == spec_push_attr(paths@, old(inodes)@, path@, *attr),
        reply@ == ResponseView::PushAttr,
{
    if let Some(inum) = paths.get(path) {
        match inodes.remove(*inum) {
            Some(mut node) => {
                // Keep the inode number
                let old_attr = node.get_attr();
                let mut new_attr = *attr;
                new_attr.ino = old_attr.ino;
                node.set_attr(new_attr);
                inodes.insert(*inum, node);
                assert(inodes@ =~= spec_push_attr(paths@, old(inodes)@, path@, *attr));
            },
            None => {
                assert(inodes@ =~= old(inodes)@);
            },
        }
    }
    Response::PushAttr
}

} // verus!
