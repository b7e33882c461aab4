//! What the handlers of the peer server keep true of the metadata maps.

use crate::meta::{child_path, consistent, FileAttr, NodeView};
use crate::peer::{RemoveDirEntryArgsView, UpdateDirArgsView};
use crate::server::{
    new_child, resolves, spec_push_attr, spec_remove_dir_entry, spec_update_dir,
};
use vstd::prelude::*;

verus! {

/// True if a path or an entry of a directory leads to the inode number
/// `ino`.
pub open spec fn referenced(
    paths: Map<Seq<u8>, u64>,
    inodes: Map<u64, NodeView>,
    ino: u64,
) -> bool {
    ||| exists|path: Seq<u8>| #[trigger] paths.contains_key(path) && paths[path] == ino
    ||| exists|dir: u64, name: Seq<u8>|
        inodes.contains_key(dir) && (#[trigger] inodes[dir].dir.contains_key(name))
            && inodes[dir].dir[name].ino == ino
}

/// True if `UpdateDir` with `args` puts the child's record in the place of
/// a record that the maps lead to under another path than the child's.
/// Such a request names an inode number that is in use, for instance that
/// of the parent itself, and the maps cannot stay consistent under it.
pub open spec fn displaces_a_node(
    paths: Map<Seq<u8>, u64>,
    inodes: Map<u64, NodeView>,
    args: UpdateDirArgsView,
) -> bool {
    let child = new_child(inodes[paths[args.parent_path]], args);
    &&& resolves(paths, inodes, args.parent_path)
    &&& inodes.contains_key(child.attr.ino)
    &&& referenced(paths, inodes, child.attr.ino)
    &&& inodes[child.attr.ino].full_path != child.full_path
}

/// `UpdateDir` keeps the maps consistent, unless it displaces a node.
/// Behind it the child's path leads to the child's record, and the parent
/// holds the child under its name.
pub proof fn lemma_update_dir_keeps_consistent(
    paths: Map<Seq<u8>, u64>,
    inodes: Map<u64, NodeView>,
    args: UpdateDirArgsView,
)
    requires
        consistent(paths, inodes),
        !displaces_a_node(paths, inodes, args),
    ensures
        consistent(spec_update_dir(paths, inodes, args).0, spec_update_dir(paths, inodes, args).1),
        resolves(paths, inodes, args.parent_path) ==> {
            let after = spec_update_dir(paths, inodes, args);
            let child = new_child(inodes[paths[args.parent_path]], args);
            &&& resolves(after.0, after.1, child.full_path)
            &&& after.0[child.full_path] == args.child_attr.ino
            &&& after.1[args.child_attr.ino] == child
            &&& after.1[paths[args.parent_path]].dir.contains_key(args.child_name)
            &&& after.1[paths[args.parent_path]].dir[args.child_name].ino == args.child_attr.ino
        },
{
    if resolves(paths, inodes, args.parent_path) {
        let after = spec_update_dir(paths, inodes, args);
        let parent_ino = paths[args.parent_path];
        let parent = inodes[parent_ino];
        let child = new_child(parent, args);
        let c = child.attr.ino;
        // The parent is led to by its path, so the child cannot take its place.
        assert(paths.contains_key(args.parent_path));
        assert(parent.full_path == args.parent_path);
        assert(child.full_path.len() == parent.full_path.len() + 1 + args.child_name.len());
        assert(c != parent_ino) by {
            if c == parent_ino {
                assert(referenced(paths, inodes, c));
            }
        }
        assert forall|path: Seq<u8>| #[trigger]
            after.0.contains_key(path) implies after.1.contains_key(after.0[path])
            && after.1[after.0[path]].full_path == path by {
            if path != child.full_path {
                assert(paths.contains_key(path));
                if paths[path] == c {
                    assert(referenced(paths, inodes, c));
                }
            }
        }
        assert forall|ino: u64, name: Seq<u8>|
            after.1.contains_key(ino) && (#[trigger] after.1[ino].dir.contains_key(name)) implies ({
            let target = after.1[ino].dir[name].ino;
            &&& after.1.contains_key(target)
            &&& after.1[target].full_path == child_path(after.1[ino].full_path, name)
        }) by {
            if ino == c {
            } else if ino == parent_ino && name == args.child_name {
            } else {
                assert(inodes.contains_key(ino));
                assert(inodes[ino].dir.contains_key(name));
                let target = inodes[ino].dir[name].ino;
                if target == c {
                    assert(referenced(paths, inodes, c));
                }
            }
        }
    }
}

/// `RemoveDirEntry` keeps the maps consistent, and behind it the parent's
/// directory lacks the name.
pub proof fn lemma_remove_dir_entry_removes(
    paths: Map<Seq<u8>, u64>,
    inodes: Map<u64, NodeView>,
    args: RemoveDirEntryArgsView,
)
    requires
        consistent(paths, inodes),
    ensures
        consistent(paths, spec_remove_dir_entry(paths, inodes, args)),
        resolves(paths, inodes, args.parent_path) ==> !spec_remove_dir_entry(
            paths,
            inodes,
            args,
        )[paths[args.parent_path]].dir.contains_key(args.child_name),
        spec_remove_dir_entry(paths, inodes, args).dom() == inodes.dom(),
{
    let after = spec_remove_dir_entry(paths, inodes, args);
    if resolves(paths, inodes, args.parent_path) {
        assert forall|path: Seq<u8>| #[trigger] paths.contains_key(path) implies after.contains_key(
            paths[path],
        ) && after[paths[path]].full_path == path by {}
        assert forall|ino: u64, name: Seq<u8>|
            after.contains_key(ino) && (#[trigger] after[ino].dir.contains_key(name)) implies ({
            let target = after[ino].dir[name].ino;
            &&& after.contains_key(target)
            &&& after[target].full_path == child_path(after[ino].full_path, name)
        }) by {
            assert(inodes.contains_key(ino));
            assert(inodes[ino].dir.contains_key(name));
        }
        assert(after.dom() =~= inodes.dom());
    }
}

/// `PushFileAttr` keeps the maps consistent and the inode number of the
/// node: of its attributes, that alone is not taken from the request.
pub proof fn lemma_push_attr_keeps_inode_number(
    paths: Map<Seq<u8>, u64>,
    inodes: Map<u64, NodeView>,
    path: Seq<u8>,
    attr: FileAttr,
)
    requires
        consistent(paths, inodes),
    ensures
        consistent(paths, spec_push_attr(paths, inodes, path, attr)),
        spec_push_attr(paths, inodes, path, attr).dom() == inodes.dom(),
        forall|ino: u64| #[trigger]
            inodes.contains_key(ino) ==> spec_push_attr(paths, inodes, path, attr)[ino].attr.ino
                == inodes[ino].attr.ino,
        resolves(paths, inodes, path) ==> spec_push_attr(
            paths,
            inodes,
            path,
            attr,
        )[paths[path]].attr == (FileAttr { ino: paths[path], ..attr }),
{
    let after = spec_push_attr(paths, inodes, path, attr);
    if resolves(paths, inodes, path) {
        assert(paths.contains_key(path));
        assert(inodes.contains_key(paths[path]));
        assert forall|p: Seq<u8>| #[trigger] paths.contains_key(p) implies after.contains_key(
            paths[p],
        ) && after[paths[p]].full_path == p by {}
        assert forall|ino: u64, name: Seq<u8>|
            after.contains_key(ino) && (#[trigger] after[ino].dir.contains_key(name)) implies ({
            let target = after[ino].dir[name].ino;
            &&& after.contains_key(target)
            &&& after[target].full_path == child_path(after[ino].full_path, name)
        }) by {
            assert(inodes.contains_key(ino));
            assert(inodes[ino].dir.contains_key(name));
        }
        assert(after.dom() =~= inodes.dom());
    }
}

/// No handler takes a record or a path away: what stood in the maps
/// before stands there behind, the root among it.
pub proof fn lemma_handlers_keep_every_node(
    paths: Map<Seq<u8>, u64>,
    inodes: Map<u64, NodeView>,
    update: UpdateDirArgsView,
    removal: RemoveDirEntryArgsView,
    path: Seq<u8>,
    attr: FileAttr,
)
    ensures
        paths.dom().subset_of(spec_update_dir(paths, inodes, update).0.dom()),
        inodes.dom().subset_of(spec_update_dir(paths, inodes, update).1.dom()),
        spec_remove_dir_entry(paths, inodes, removal).dom() == inodes.dom(),
        spec_push_attr(paths, inodes, path, attr).dom() == inodes.dom(),
{
    assert(spec_remove_dir_entry(paths, inodes, removal).dom() =~= inodes.dom());
    assert(spec_push_attr(paths, inodes, path, attr).dom() =~= inodes.dom());
}

/// An entry that `UpdateDir` attached is gone once `RemoveDirEntry` has
/// run for the same parent and name, whatever the parent held before.
pub proof fn lemma_update_then_remove(
    paths: Map<Seq<u8>, u64>,
    inodes: Map<u64, NodeView>,
    args: UpdateDirArgsView,
)
    requires
        consistent(paths, inodes),
        !displaces_a_node(paths, inodes, args),
        resolves(paths, inodes, args.parent_path),
    ensures
        ({
            let attached = spec_update_dir(paths, inodes, args);
            let removal = RemoveDirEntryArgsView {
                parent_path: args.parent_path,
                child_name: args.child_name,
            };
            let detached = spec_remove_dir_entry(attached.0, attached.1, removal);
            let parent_ino = paths[args.parent_path];
            &&& consistent(attached.0, detached)
            &&& detached[parent_ino].dir == inodes[parent_ino].dir.remove(args.child_name)
            &&& detached.contains_key(args.child_attr.ino)
        }),
{
    let attached = spec_update_dir(paths, inodes, args);
    let removal = RemoveDirEntryArgsView {
        parent_path: args.parent_path,
        child_name: args.child_name,
    };
    let parent_ino = paths[args.parent_path];
    let parent = inodes[parent_ino];
    let child = new_child(parent, args);
    lemma_update_dir_keeps_consistent(paths, inodes, args);
    lemma_remove_dir_entry_removes(attached.0, attached.1, removal);
    assert(paths.contains_key(args.parent_path));
    assert(parent.full_path == args.parent_path);
    assert(child.full_path.len() == parent.full_path.len() + 1 + args.child_name.len());
    assert(child.full_path != args.parent_path);
    assert(child.attr.ino != parent_ino) by {
        if child.attr.ino == parent_ino {
            assert(referenced(paths, inodes, parent_ino));
        }
    }
    assert(attached.0[args.parent_path] == parent_ino);
    let detached = spec_remove_dir_entry(attached.0, attached.1, removal);
    assert(detached[parent_ino].dir =~= inodes[parent_ino].dir.remove(args.child_name));
}

} // verus!
