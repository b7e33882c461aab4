//! The metadata graph of a node: the records of the inodes and the two
//! maps that hold them, from paths to inode numbers and from inode numbers
//! to records.

use crate::bytemap::ByteMap;
use crate::bytes::{append_bytes, copy_bytes};
use std::collections::HashMap;
use vstd::prelude::*;

verus! {

/// Kind of a filesystem node.
#[derive(Debug, Clone, Copy, PartialEq, Eq, Structural)]
pub enum FileKind {
    File,
    Directory,
    Symlink,
}

/// A point in time: seconds since the epoch and the nanoseconds behind them.
#[derive(Debug, Clone, Copy, PartialEq, Eq, Structural)]
pub struct Timestamp {
    pub secs: u64,
    pub nanos: u32,
}

/// Attributes of a node. The inode number `ino` is the identity of the node.
#[derive(Debug, Clone, Copy, PartialEq, Eq, Structural)]
pub struct FileAttr {
    pub ino: u64,
    pub size: u64,
    pub blocks: u64,
    pub atime: Timestamp,
    pub mtime: Timestamp,
    pub ctime: Timestamp,
    pub crtime: Timestamp,
    pub kind: FileKind,
    pub perm: u16,
    pub nlink: u32,
    pub uid: u32,
    pub gid: u32,
    pub rdev: u32,
    pub flags: u32,
}

/// What a directory knows of one of its children, under the child's name.
#[derive(Debug, Clone, Copy, PartialEq, Eq, Structural)]
pub struct Child {
    pub ino: u64,
    pub kind: FileKind,
}

/// Entry of a directory as it is handed out: a child with its name.
#[derive(Debug)]
pub struct DirEntry {
    pub ino: u64,
    pub name: Vec<u8>,
    pub kind: FileKind,
}

/// What a `DirEntry` holds.
pub struct DirEntryView {
    pub ino: u64,
    pub name: Seq<u8>,
    pub kind: FileKind,
}

impl View for DirEntry {
    type V = DirEntryView;

    open spec fn view(&self) -> DirEntryView {
        DirEntryView { ino: self.ino, name: self.name@, kind: self.kind }
    }
}

impl DirEntry {
    /// The entry for the child `child` under the name `name`.
    pub fn new(ino: u64, name: Vec<u8>, kind: FileKind) -> (entry: DirEntry)
        ensures
            entry@ == (DirEntryView { ino, name: name@, kind }),
    {
        DirEntry { ino, name, kind }
    }
}

/// Path of the child `name` of the directory at `parent`.
pub open spec fn child_path(parent: Seq<u8>, name: Seq<u8>) -> Seq<u8> {
    parent + seq![0x2fu8] + name
}

/// Record of one inode: attributes, full path, the entries of a directory
/// and the target of a symbolic link.
pub struct Node {
    attr: FileAttr,
    full_path: Vec<u8>,
    dir: ByteMap<Child>,
    target: Option<Vec<u8>>,
}

/// What a `Node` holds.
pub struct NodeView {
    pub attr: FileAttr,
    pub full_path: Seq<u8>,
    pub dir: Map<Seq<u8>, Child>,
    pub target: Option<Seq<u8>>,
}

impl View for Node {
    type V = NodeView;

    closed spec fn view(&self) -> NodeView {
        NodeView {
            attr: self.attr,
            full_path: self.full_path@,
            dir: self.dir@,
            target: match self.target {
                Some(t) => Some(t@),
                None => None,
            },
        }
    }
}

impl Node {
    /// What holds of every record: its directory map is a map.
    pub closed spec fn wf(&self) -> bool {
        self.dir.wf()
    }

    /// The names of the directory's entries, in the order in which they
    /// were first entered.
    pub closed spec fn names(&self) -> Seq<Seq<u8>> {
        self.dir.keys()
    }

    /// A record without directory entries.
    pub fn new(attr: FileAttr, full_path: Vec<u8>, target: Option<Vec<u8>>) -> (node: Node)
        ensures
            node.wf(),
            node@ == (NodeView {
                attr,
                full_path: full_path@,
                dir: Map::<Seq<u8>, Child>::empty(),
                target: match target {
                    Some(t) => Some(t@),
                    None => None,
                },
            }),
    {
        Node { attr, full_path, dir: ByteMap::new(), target }
    }

    /// The record of the child `child_name` of the directory `parent`,
    /// with the attributes `child_attr`. The child is not entered
    /// anywhere: neither in the directory nor in a map.
    pub fn new_child_node_of_parent(
        parent: &Node,
        child_name: &[u8],
        child_attr: FileAttr,
        target_path: Option<Vec<u8>>,
    ) -> (child: Node)
        ensures
            child.wf(),
            child@ == (NodeView {
                attr: child_attr,
                full_path: child_path(parent@.full_path, child_name@),
                dir: Map::<Seq<u8>, Child>::empty(),
                target: match target_path {
                    Some(t) => Some(t@),
                    None => None,
                },
            }),
    {
        let mut full_path = copy_bytes(parent.full_path.as_slice());
        full_path.push(0x2f);
        append_bytes(&mut full_path, child_name);
        assert(full_path@ =~= child_path(parent@.full_path, child_name@));
        Node::new(child_attr, full_path, target_path)
    }

    /// The inode number of the node.
    pub fn get_ino(&self) -> (ino: u64)
        ensures
            ino == self@.attr.ino,
    {
        self.attr.ino
    }

    /// The kind of the node.
    pub fn get_type(&self) -> (kind: FileKind)
        ensures
            kind == self@.attr.kind,
    {
        self.attr.kind
    }

    /// The attributes of the node.
    pub fn get_attr(&self) -> (attr: FileAttr)
        ensures
            attr == self@.attr,
    {
        self.attr
    }

    /// The full path of the node.
    pub fn full_path(&self) -> (path: &[u8])
        ensures
            path@ == self@.full_path,
    {
        self.full_path.as_slice()
    }

    /// The target of the symbolic link, if the node has one.
    pub fn target(&self) -> (target: Option<&[u8]>)
        ensures
            match target {
                Some(t) => self@.target == Some(t@),
                None => self@.target is None,
            },
    {
        match &self.target {
            Some(t) => Some(t.as_slice()),
            None => None,
        }
    }

    /// Replaces the attributes of the node.
    pub fn set_attr(&mut self, attr: FileAttr)
        requires
            old(self).wf(),
        ensures
            final(self).wf(),
            final(self).names() == old(self).names(),
            final(self)@ == (NodeView { attr, ..old(self)@ }),
    {
        self.attr = attr;
    }

    /// Enters the child `name` in the directory, in place of an entry of
    /// that name if there is one.
    pub fn insert_entry(&mut self, name: Vec<u8>, child: Child)
        requires
            old(self).wf(),
        ensures
            final(self).wf(),
            final(self)@ == (NodeView { dir: old(self)@.dir.insert(name@, child), ..old(self)@ }),
    {
        self.dir.insert(name, child);
    }

    /// Removes the entry `name` from the directory, if there is one.
    pub fn remove_entry(&mut self, name: &[u8]) -> (removed: Option<Child>)
        requires
            old(self).wf(),
        ensures
            final(self).wf(),
            final(self)@ == (NodeView { dir: old(self)@.dir.remove(name@), ..old(self)@ }),
            match removed {
                Some(child) => old(self)@.dir.contains_key(name@) && child == old(self)@.dir[name@],
                None => !old(self)@.dir.contains_key(name@),
            },
    {
        self.dir.remove(name)
    }

    /// The child that the directory holds under `name`.
    pub fn entry(&self, name: &[u8]) -> (child: Option<Child>)
        requires
            self.wf(),
        ensures
            match child {
                Some(c) => self@.dir.contains_key(name@) && c == self@.dir[name@],
                None => !self@.dir.contains_key(name@),
            },
    {
        match self.dir.get(name) {
            Some(c) => Some(*c),
            None => None,
        }
    }

    /// The entries of the directory, in the order in which their names
    /// were first entered.
    pub fn get_dir_data(&self) -> (entries: Vec<DirEntry>)
        requires
            self.wf(),
        ensures
            is_listing_of(entries@, self@.dir),
            entries@.len() == self.names().len(),
            forall|i: int| 0 <= i < entries@.len() ==> entries@[i].name@ == self.names()[i],
    {
        let mut entries: Vec<DirEntry> = Vec::new();
        let n = self.dir.len();
        let mut i: usize = 0;
        while i < n
            invariant
                self.wf(),
                self.dir.wf(),
                i <= n,
                n == self.dir.keys().len(),
                n == self.dir.values().len(),
                entries@.len() == i,
                forall|j: int|
                    0 <= j < i ==> {
                        &&& (#[trigger] entries@[j]).name@ == self.dir.keys()[j]
                        &&& entries@[j].ino == self.dir.values()[j].ino
                        &&& entries@[j].kind == self.dir.values()[j].kind
                    },
            decreases n - i,
        {
            let child = *self.dir.value_at(i);
            let name = copy_bytes(self.dir.key_at(i).as_slice());
            entries.push(DirEntry::new(child.ino, name, child.kind));
            i = i + 1;
        }
        proof {
            let keys = self.dir.keys();
            assert forall|j: int| 0 <= j < entries@.len() implies {
                &&& self@.dir.contains_key(#[trigger] entries@[j].name@)
                &&& self@.dir[entries@[j].name@] == (Child {
                    ino: entries@[j].ino,
                    kind: entries@[j].kind,
                })
            } by {
                assert(keys[j] == entries@[j].name@);
                assert(keys.contains(keys[j]));
                let k = keys.index_of(keys[j]);
                assert(keys[k] == keys[j]);
                assert(k == j);
            }
            assert forall|name: Seq<u8>| self@.dir.contains_key(name) implies exists|j: int|
                0 <= j < entries@.len() && (#[trigger] entries@[j]).name@ == name by {
                let k = keys.index_of(name);
                assert(keys[k] == name);
                assert(entries@[k].name@ == name);
            }
        }
        entries
    }
}

/// True if `entries` lists the directory `dir`: each entry once, under its
/// name, and no other.
pub open spec fn is_listing_of(entries: Seq<DirEntry>, dir: Map<Seq<u8>, Child>) -> bool {
    &&& forall|i: int, j: int|
        0 <= i < j < entries.len() ==> (#[trigger] entries[i]).name@
            != (#[trigger] entries[j]).name@
    &&& forall|i: int|
        0 <= i < entries.len() ==> {
            &&& dir.contains_key(#[trigger] entries[i].name@)
            &&& dir[entries[i].name@] == (Child { ino: entries[i].ino, kind: entries[i].kind })
        }
    &&& forall|name: Seq<u8>|
        dir.contains_key(name) ==> exists|i: int|
            0 <= i < entries.len() && (#[trigger] entries[i]).name@ == name
}

/// The map from paths to inode numbers.
pub type PathMap = ByteMap<u64>;

/// The map from inode numbers to the records of the nodes.
pub struct InodeMap {
    map: HashMap<u64, Node>,
}

impl View for InodeMap {
    type V = Map<u64, NodeView>;

    closed spec fn view(&self) -> Map<u64, NodeView> {
        Map::new(|ino: u64| self.map@.contains_key(ino), |ino: u64| self.map@[ino]@)
    }
}

impl InodeMap {
    /// What holds of every map of records: each record is well formed.
    pub closed spec fn wf(&self) -> bool {
        forall|ino: u64| self.map@.contains_key(ino) ==> (#[trigger] self.map@[ino]).wf()
    }

    /// A map without records.
    pub fn new() -> (inodes: InodeMap)
        ensures
            inodes.wf(),
            inodes@ == Map::<u64, NodeView>::empty(),
    {
        let inodes = InodeMap { map: HashMap::new() };
        assert(inodes@ =~= Map::<u64, NodeView>::empty());
        inodes
    }

    /// True if the map holds a record under `ino`.
    pub fn contains_key(&self, ino: u64) -> (found: bool)
        ensures
            found == self@.contains_key(ino),
    {
        self.map.contains_key(&ino)
    }

    /// The record under `ino`.
    pub fn get(&self, ino: u64) -> (node: Option<&Node>)
        requires
            self.wf(),
        ensures
            match node {
                Some(n) => self@.contains_key(ino) && n@ == self@[ino] && n.wf(),
                None => !self@.contains_key(ino),
            },
    {
        self.map.get(&ino)
    }

    /// Puts `node` under `ino`, in place of the record that is there.
    pub fn insert(&mut self, ino: u64, node: Node)
        requires
            old(self).wf(),
            node.wf(),
        ensures
            final(self).wf(),
            final(self)@ == old(self)@.insert(ino, node@),
    {
        self.map.insert(ino, node);
        assert(self@ =~= old(self)@.insert(ino, node@));
    }

    /// Takes the record under `ino` out of the map.
    pub fn remove(&mut self, ino: u64) -> (node: Option<Node>)
        requires
            old(self).wf(),
        ensures
            final(self).wf(),
            final(self)@ == old(self)@.remove(ino),
            match node {
                Some(n) => old(self)@.contains_key(ino) && n@ == old(self)@[ino] && n.wf(),
                None => !old(self)@.contains_key(ino),
            },
    {
        let node = self.map.remove(&ino);
        assert(self@ =~= old(self)@.remove(ino));
        node
    }
}

/// What binds the two maps together.
///
/// Every path leads to a record that bears that path. Every entry of a
/// directory leads to a record whose path is that of the directory, a
/// slash and the name of the entry. Every record stands under the inode
/// number that its attributes bear, so no two records share a number.
pub open spec fn consistent(paths: Map<Seq<u8>, u64>, inodes: Map<u64, NodeView>) -> bool {
    &&& forall|path: Seq<u8>| #[trigger]
        paths.contains_key(path) ==> inodes.contains_key(paths[path])
            && inodes[paths[path]].full_path == path
    &&& forall|ino: u64, name: Seq<u8>|
        inodes.contains_key(ino) && (#[trigger] inodes[ino].dir.contains_key(name)) ==> {
            let child = inodes[ino].dir[name].ino;
            &&& inodes.contains_key(child)
            &&& inodes[child].full_path == child_path(inodes[ino].full_path, name)
        }
    &&& forall|ino: u64| #[trigger] inodes.contains_key(ino) ==> inodes[ino].attr.ino == ino
}

} // verus!
