use fuse_node::meta::{Child, FileAttr, FileKind, InodeMap, Node, PathMap, Timestamp};
use fuse_node::peer::{RemoveDirEntryArgs, Response, UpdateDirArgs};
use fuse_node::server::{
    check_available, get_attr, load_dir, push_attr, remove_dir_entry, turnoff, update_dir,
};

fn attr(ino: u64, kind: FileKind) -> FileAttr {
    let t = Timestamp { secs: 1_600_000_000, nanos: 7 };
    FileAttr {
        ino,
        size: 0,
        blocks: 0,
        atime: t,
        mtime: t,
        ctime: t,
        crtime: t,
        kind,
        perm: 0o755,
        nlink: 1,
        uid: 1000,
        gid: 1000,
        rdev: 0,
        flags: 0,
    }
}

/// A store with the directory "/a" under inode number 2.
fn store_with_a() -> (PathMap, InodeMap) {
    let mut paths = PathMap::new();
    let mut inodes = InodeMap::new();
    paths.insert(b"/a".to_vec(), 2);
    inodes.insert(2, Node::new(attr(2, FileKind::Directory), b"/a".to_vec(), None));
    (paths, inodes)
}

fn update_b(ino: u64) -> UpdateDirArgs {
    UpdateDirArgs {
        parent_path: b"/a".to_vec(),
        child_name: b"b".to_vec(),
        child_attr: attr(ino, FileKind::File),
        target_path: None,
    }
}

#[test]
fn update_dir_attaches_the_child() {
    let (mut paths, mut inodes) = store_with_a();
    let reply = update_dir(&mut paths, &mut inodes, update_b(5));
    assert!(matches!(reply, Response::UpdateDir));

    // The child's path leads to its inode number and its record.
    assert_eq!(paths.get(b"/a/b"), Some(&5));
    let child = inodes.get(5).unwrap();
    assert_eq!(child.full_path(), b"/a/b");
    assert_eq!(child.get_ino(), 5);
    assert_eq!(child.get_type(), FileKind::File);
    assert!(child.target().is_none());
    assert!(child.get_dir_data().is_empty());

    // The parent holds the child under its name and keeps its own record.
    let parent = inodes.get(2).unwrap();
    assert_eq!(parent.entry(b"b"), Some(Child { ino: 5, kind: FileKind::File }));
    assert_eq!(parent.full_path(), b"/a");
    assert_eq!(paths.get(b"/a"), Some(&2));
    assert_eq!(paths.len(), 2);
}

#[test]
fn update_dir_keeps_the_target_of_a_link() {
    let (mut paths, mut inodes) = store_with_a();
    let args = UpdateDirArgs {
        parent_path: b"/a".to_vec(),
        child_name: b"l".to_vec(),
        child_attr: attr(9, FileKind::Symlink),
        target_path: Some(b"/elsewhere".to_vec()),
    };
    update_dir(&mut paths, &mut inodes, args);
    let link = inodes.get(9).unwrap();
    assert_eq!(link.target(), Some(&b"/elsewhere"[..]));
    assert_eq!(link.full_path(), b"/a/l");
    assert_eq!(
        inodes.get(2).unwrap().entry(b"l"),
        Some(Child { ino: 9, kind: FileKind::Symlink })
    );
}

#[test]
fn update_dir_without_the_parent_changes_nothing() {
    let (mut paths, mut inodes) = store_with_a();
    let args = UpdateDirArgs {
        parent_path: b"/missing".to_vec(),
        child_name: b"b".to_vec(),
        child_attr: attr(5, FileKind::File),
        target_path: None,
    };
    let reply = update_dir(&mut paths, &mut inodes, args);
    assert!(matches!(reply, Response::UpdateDir));
    assert_eq!(paths.len(), 1);
    assert!(!inodes.contains_key(5));
    assert!(inodes.get(2).unwrap().get_dir_data().is_empty());
}

#[test]
fn update_dir_without_the_parents_record_changes_nothing() {
    let mut paths = PathMap::new();
    let mut inodes = InodeMap::new();
    paths.insert(b"/a".to_vec(), 2);
    let reply = update_dir(&mut paths, &mut inodes, update_b(5));
    assert!(matches!(reply, Response::UpdateDir));
    assert_eq!(paths.len(), 1);
    assert!(paths.get(b"/a/b").is_none());
    assert!(!inodes.contains_key(5));
    assert!(!inodes.contains_key(2));
}

#[test]
fn update_dir_then_remove_dir_entry() {
    let (mut paths, mut inodes) = store_with_a();
    update_dir(&mut paths, &mut inodes, update_b(5));
    let removal = RemoveDirEntryArgs { parent_path: b"/a".to_vec(), child_name: b"b".to_vec() };
    let reply = remove_dir_entry(&paths, &mut inodes, removal);
    assert!(matches!(reply, Response::UpdateDir));

    // The parent's directory is empty again: the name resolves no more.
    let parent = inodes.get(2).unwrap();
    assert!(parent.get_dir_data().is_empty());
    assert_eq!(parent.entry(b"b"), None);
    match load_dir(&paths, &inodes, b"/a") {
        Response::LoadDir(Some(entries)) => assert!(entries.is_empty()),
        other => panic!("unexpected reply {:?}", other),
    }
    // The record of the child stays behind until it is collected.
    assert!(inodes.contains_key(5));
}

#[test]
fn remove_dir_entry_leaves_other_entries() {
    let (mut paths, mut inodes) = store_with_a();
    update_dir(&mut paths, &mut inodes, update_b(5));
    let mut c = update_b(6);
    c.child_name = b"c".to_vec();
    c.child_attr.kind = FileKind::Directory;
    update_dir(&mut paths, &mut inodes, c);
    let removal = RemoveDirEntryArgs { parent_path: b"/a".to_vec(), child_name: b"b".to_vec() };
    remove_dir_entry(&paths, &mut inodes, removal);
    match load_dir(&paths, &inodes, b"/a") {
        Response::LoadDir(Some(entries)) => {
            assert_eq!(entries.len(), 1);
            assert_eq!(entries[0].name, b"c");
            assert_eq!(entries[0].ino, 6);
            assert_eq!(entries[0].kind, FileKind::Directory);
        }
        other => panic!("unexpected reply {:?}", other),
    }
}

#[test]
fn remove_dir_entry_of_a_missing_name_or_parent() {
    let (mut paths, mut inodes) = store_with_a();
    update_dir(&mut paths, &mut inodes, update_b(5));
    let removal = RemoveDirEntryArgs { parent_path: b"/a".to_vec(), child_name: b"zz".to_vec() };
    assert!(matches!(remove_dir_entry(&paths, &mut inodes, removal), Response::UpdateDir));
    let removal = RemoveDirEntryArgs { parent_path: b"/q".to_vec(), child_name: b"b".to_vec() };
    assert!(matches!(remove_dir_entry(&paths, &mut inodes, removal), Response::UpdateDir));
    assert_eq!(
        inodes.get(2).unwrap().entry(b"b"),
        Some(Child { ino: 5, kind: FileKind::File })
    );
}

#[test]
fn load_dir_lists_in_order_of_entry() {
    let (mut paths, mut inodes) = store_with_a();
    for (i, name) in [&b"x"[..], b"b", b"m"].iter().enumerate() {
        let mut args = update_b(10 + i as u64);
        args.child_name = name.to_vec();
        update_dir(&mut paths, &mut inodes, args);
    }
    match load_dir(&paths, &inodes, b"/a") {
        Response::LoadDir(Some(entries)) => {
            let names: Vec<&[u8]> = entries.iter().map(|e| &e.name[..]).collect();
            assert_eq!(names, vec![&b"x"[..], b"b", b"m"]);
            let inos: Vec<u64> = entries.iter().map(|e| e.ino).collect();
            assert_eq!(inos, vec![10, 11, 12]);
        }
        other => panic!("unexpected reply {:?}", other),
    }
}

#[test]
fn load_dir_of_an_unknown_path() {
    let (paths, inodes) = store_with_a();
    assert!(matches!(load_dir(&paths, &inodes, b"/nope"), Response::LoadDir(None)));
    let mut paths = paths;
    paths.insert(b"/dangling".to_vec(), 77);
    assert!(matches!(load_dir(&paths, &inodes, b"/dangling"), Response::LoadDir(None)));
}

#[test]
fn get_attr_of_known_and_unknown_paths() {
    let (mut paths, inodes) = store_with_a();
    match get_attr(&paths, &inodes, b"/a") {
        Response::GetAttr(Some(found)) => assert_eq!(found, attr(2, FileKind::Directory)),
        other => panic!("unexpected reply {:?}", other),
    }
    assert!(matches!(get_attr(&paths, &inodes, b"/b"), Response::GetAttr(None)));
    paths.insert(b"/dangling".to_vec(), 77);
    assert!(matches!(get_attr(&paths, &inodes, b"/dangling"), Response::GetAttr(None)));
}

#[test]
fn push_attr_keeps_the_inode_number() {
    let (paths, mut inodes) = store_with_a();
    let mut pushed = attr(999, FileKind::File);
    pushed.size = 4096;
    pushed.uid = 7;
    pushed.perm = 0o600;
    let reply = push_attr(&paths, &mut inodes, b"/a", &pushed);
    assert!(matches!(reply, Response::PushAttr));
    let now = inodes.get(2).unwrap().get_attr();
    assert_eq!(now.ino, 2);
    // Everything else comes from the request.
    let mut expected = pushed;
    expected.ino = 2;
    assert_eq!(now, expected);
    assert!(!inodes.contains_key(999));
}

#[test]
fn push_attr_to_an_unknown_path_changes_nothing() {
    let (paths, mut inodes) = store_with_a();
    let reply = push_attr(&paths, &mut inodes, b"/zz", &attr(999, FileKind::File));
    assert!(matches!(reply, Response::PushAttr));
    assert_eq!(inodes.get(2).unwrap().get_attr(), attr(2, FileKind::Directory));
}

#[test]
fn push_attr_keeps_the_directory() {
    let (mut paths, mut inodes) = store_with_a();
    update_dir(&mut paths, &mut inodes, update_b(5));
    push_attr(&paths, &mut inodes, b"/a", &attr(1, FileKind::Directory));
    assert_eq!(
        inodes.get(2).unwrap().entry(b"b"),
        Some(Child { ino: 5, kind: FileKind::File })
    );
    assert_eq!(inodes.get(2).unwrap().full_path(), b"/a");
}

#[test]
fn check_available_reports_only_what_is_present() {
    match check_available((vec![3, 4], true)) {
        Response::CheckAvailable(Some(blocks)) => assert_eq!(blocks, vec![3, 4]),
        other => panic!("unexpected reply {:?}", other),
    }
    assert!(matches!(check_available((vec![3, 4], false)), Response::CheckAvailable(None)));
}

#[test]
fn turnoff_acknowledges() {
    assert!(matches!(turnoff(), Response::TurnOff));
}

#[test]
fn child_of_the_root_gets_a_slash_of_its_own() {
    let root = Node::new(attr(1, FileKind::Directory), b"/".to_vec(), None);
    let child = Node::new_child_node_of_parent(&root, b"x", attr(3, FileKind::File), None);
    assert_eq!(child.full_path(), b"//x");
}

#[test]
fn node_entries() {
    let mut node = Node::new(attr(1, FileKind::Directory), b"/d".to_vec(), None);
    node.insert_entry(b"a".to_vec(), Child { ino: 2, kind: FileKind::File });
    node.insert_entry(b"a".to_vec(), Child { ino: 3, kind: FileKind::Directory });
    assert_eq!(node.entry(b"a"), Some(Child { ino: 3, kind: FileKind::Directory }));
    assert_eq!(node.get_dir_data().len(), 1);
    assert_eq!(node.remove_entry(b"a"), Some(Child { ino: 3, kind: FileKind::Directory }));
    assert_eq!(node.remove_entry(b"a"), None);
    node.set_attr(attr(8, FileKind::Directory));
    assert_eq!(node.get_ino(), 8);
}
