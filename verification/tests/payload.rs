use fuse_node::meta::{DirEntry, FileAttr, FileKind, Timestamp};
use fuse_node::payload::{
    deserialize_cache, deserialize_response, serialize_request, serialize_response, turnoff,
};
use fuse_node::peer::{
    DistRequest, OpArgs, RemoveArgs, RemoveDirEntryArgs, RenameParam, Response, UpdateDirArgs,
};

fn attr() -> FileAttr {
    FileAttr {
        ino: 0x0102_0304_0506_0708,
        size: u64::MAX,
        blocks: 3,
        atime: Timestamp { secs: 1, nanos: 2 },
        mtime: Timestamp { secs: 3, nanos: 4 },
        ctime: Timestamp { secs: 5, nanos: 999_999_999 },
        crtime: Timestamp { secs: u64::MAX, nanos: u32::MAX },
        kind: FileKind::Symlink,
        perm: 0o7777,
        nlink: 2,
        uid: 1000,
        gid: 100,
        rdev: 0xffff_ffff,
        flags: 0x8000_0001,
    }
}

/// Encodes, decodes, and encodes again: the two encodings must agree, and
/// the decoded request is handed back for a closer look.
fn round_trip(request: &DistRequest) -> DistRequest {
    let payload = serialize_request(request);
    let decoded = deserialize_cache(&payload).expect("a request that was encoded");
    assert_eq!(serialize_request(&decoded), payload);
    assert_eq!(format!("{:?}", decoded), format!("{:?}", request));
    decoded
}

fn round_trip_response(response: &Response) -> Response {
    let payload = serialize_response(response);
    let decoded = deserialize_response(&payload).expect("a response that was encoded");
    assert_eq!(serialize_response(&decoded), payload);
    assert_eq!(format!("{:?}", decoded), format!("{:?}", response));
    decoded
}

#[test]
fn every_request_round_trips() {
    let args = || OpArgs { file_name: b"file".to_vec(), index: 42 };
    let requests = vec![
        DistRequest::TurnOff,
        DistRequest::Invalidate(args()),
        DistRequest::CheckAvailable(args()),
        DistRequest::Read(args()),
        DistRequest::LoadDir(b"/a/b".to_vec()),
        DistRequest::UpdateDir(UpdateDirArgs {
            parent_path: b"/a".to_vec(),
            child_name: b"b".to_vec(),
            child_attr: attr(),
            target_path: Some(b"/t".to_vec()),
        }),
        DistRequest::UpdateDir(UpdateDirArgs {
            parent_path: b"/a".to_vec(),
            child_name: b"b".to_vec(),
            child_attr: attr(),
            target_path: None,
        }),
        DistRequest::RemoveDirEntry(RemoveDirEntryArgs {
            parent_path: b"/a".to_vec(),
            child_name: b"b".to_vec(),
        }),
        DistRequest::GetFileAttr(b"/a".to_vec()),
        DistRequest::PushFileAttr((b"/a".to_vec(), attr())),
        DistRequest::Rename(RenameParam {
            old_parent: 1,
            old_name: b"o".to_vec(),
            new_parent: 2,
            new_name: b"n".to_vec(),
            flags: 5,
        }),
        DistRequest::Remove(RemoveArgs {
            parent: 9,
            child_name: b"gone".to_vec(),
            child_type: FileKind::Directory,
        }),
        DistRequest::GetInodeNum,
    ];
    for request in &requests {
        round_trip(request);
    }
}

#[test]
fn empty_and_large_payloads_round_trip() {
    round_trip(&DistRequest::LoadDir(Vec::new()));
    round_trip(&DistRequest::Read(OpArgs { file_name: Vec::new(), index: 0 }));
    round_trip(&DistRequest::UpdateDir(UpdateDirArgs {
        parent_path: Vec::new(),
        child_name: Vec::new(),
        child_attr: attr(),
        target_path: Some(Vec::new()),
    }));
    let big: Vec<u8> = (0..200_000u32).map(|i| (i % 251) as u8).collect();
    match round_trip(&DistRequest::GetFileAttr(big.clone())) {
        DistRequest::GetFileAttr(path) => assert_eq!(path, big),
        other => panic!("unexpected request {:?}", other),
    }
    match round_trip(&DistRequest::Invalidate(OpArgs { file_name: big.clone(), index: u64::MAX }))
    {
        DistRequest::Invalidate(args) => {
            assert_eq!(args.file_name, big);
            assert_eq!(args.index, u64::MAX);
        }
        other => panic!("unexpected request {:?}", other),
    }
}

#[test]
fn decoded_fields_are_those_that_were_encoded() {
    let request = DistRequest::UpdateDir(UpdateDirArgs {
        parent_path: b"/a".to_vec(),
        child_name: b"b".to_vec(),
        child_attr: attr(),
        target_path: Some(b"/t".to_vec()),
    });
    match round_trip(&request) {
        DistRequest::UpdateDir(args) => {
            assert_eq!(args.parent_path, b"/a");
            assert_eq!(args.child_name, b"b");
            assert_eq!(args.child_attr, attr());
            assert_eq!(args.target_path, Some(b"/t".to_vec()));
        }
        other => panic!("unexpected request {:?}", other),
    }
    match round_trip(&DistRequest::PushFileAttr((b"/p".to_vec(), attr()))) {
        DistRequest::PushFileAttr((path, pushed)) => {
            assert_eq!(path, b"/p");
            assert_eq!(pushed, attr());
        }
        other => panic!("unexpected request {:?}", other),
    }
}

#[test]
fn exact_bytes_of_some_requests() {
    assert_eq!(serialize_request(&DistRequest::TurnOff), vec![0]);
    assert_eq!(turnoff(), vec![0]);
    assert_eq!(serialize_request(&DistRequest::GetInodeNum), vec![11]);
    assert_eq!(
        serialize_request(&DistRequest::LoadDir(b"/a".to_vec())),
        vec![4, 0, 0, 0, 0, 0, 0, 0, 2, b'/', b'a']
    );
    assert_eq!(
        serialize_request(&DistRequest::Read(OpArgs { file_name: b"f".to_vec(), index: 258 })),
        vec![3, 0, 0, 0, 0, 0, 0, 0, 1, b'f', 0, 0, 0, 0, 0, 0, 1, 2]
    );
    assert_eq!(
        serialize_request(&DistRequest::Remove(RemoveArgs {
            parent: 1,
            child_name: b"x".to_vec(),
            child_type: FileKind::Symlink,
        })),
        vec![10, 0, 0, 0, 0, 0, 0, 0, 1, 0, 0, 0, 0, 0, 0, 0, 1, b'x', 2]
    );
}

#[test]
fn every_response_round_trips() {
    let entries = vec![
        DirEntry { ino: 5, name: b"b".to_vec(), kind: FileKind::File },
        DirEntry { ino: 6, name: Vec::new(), kind: FileKind::Directory },
        DirEntry { ino: u64::MAX, name: b"link".to_vec(), kind: FileKind::Symlink },
    ];
    let responses = vec![
        Response::TurnOff,
        Response::Invalidate,
        Response::CheckAvailable(None),
        Response::CheckAvailable(Some(Vec::new())),
        Response::CheckAvailable(Some(vec![0, 1, u64::MAX])),
        Response::LoadDir(None),
        Response::LoadDir(Some(Vec::new())),
        Response::LoadDir(Some(entries)),
        Response::UpdateDir,
        Response::GetAttr(None),
        Response::GetAttr(Some(attr())),
        Response::PushAttr,
        Response::Rename,
        Response::Remove,
    ];
    for response in &responses {
        round_trip_response(response);
    }
    match round_trip_response(&Response::GetAttr(Some(attr()))) {
        Response::GetAttr(Some(found)) => assert_eq!(found, attr()),
        other => panic!("unexpected response {:?}", other),
    }
    let many: Vec<u64> = (0..50_000).collect();
    match round_trip_response(&Response::CheckAvailable(Some(many.clone()))) {
        Response::CheckAvailable(Some(blocks)) => assert_eq!(blocks, many),
        other => panic!("unexpected response {:?}", other),
    }
}

#[test]
fn exact_bytes_of_some_responses() {
    assert_eq!(serialize_response(&Response::TurnOff), vec![0]);
    assert_eq!(serialize_response(&Response::UpdateDir), vec![4]);
    assert_eq!(serialize_response(&Response::LoadDir(None)), vec![3, 0]);
    assert_eq!(
        serialize_response(&Response::CheckAvailable(Some(vec![7]))),
        vec![2, 1, 0, 0, 0, 0, 0, 0, 0, 1, 0, 0, 0, 0, 0, 0, 0, 7]
    );
    assert_eq!(
        serialize_response(&Response::LoadDir(Some(vec![DirEntry {
            ino: 2,
            name: b"n".to_vec(),
            kind: FileKind::Directory,
        }]))),
        vec![3, 1, 0, 0, 0, 0, 0, 0, 0, 1, 0, 0, 0, 0, 0, 0, 0, 2, 0, 0, 0, 0, 0, 0, 0, 1, b'n', 1]
    );
}

#[test]
fn malformed_payloads_are_refused() {
    assert!(deserialize_cache(b"").is_none());
    assert!(deserialize_cache(&[12]).is_none());
    assert!(deserialize_cache(&[255]).is_none());
    // A byte behind a whole request.
    assert!(deserialize_cache(&[0, 0]).is_none());
    assert!(deserialize_cache(&[11, 1]).is_none());
    // A byte string shorter than its length says.
    assert!(deserialize_cache(&[4, 0, 0, 0, 0, 0, 0, 0, 3, b'/', b'a']).is_none());
    // A length that no buffer can hold.
    assert!(deserialize_cache(&[4, 0xff, 0xff, 0xff, 0xff, 0xff, 0xff, 0xff, 0xff]).is_none());
    // A kind of node that does not exist.
    assert!(
        deserialize_cache(&[10, 0, 0, 0, 0, 0, 0, 0, 1, 0, 0, 0, 0, 0, 0, 0, 1, b'x', 3]).is_none()
    );
    // Every cut of a request is refused.
    let whole = serialize_request(&DistRequest::PushFileAttr((b"/p".to_vec(), attr())));
    for cut in 0..whole.len() {
        assert!(deserialize_cache(&whole[..cut]).is_none(), "cut at {}", cut);
    }
    assert!(deserialize_cache(&whole).is_some());

    assert!(deserialize_response(b"").is_none());
    assert!(deserialize_response(&[9]).is_none());
    assert!(deserialize_response(&[2, 2]).is_none());
    assert!(deserialize_response(&[4, 0]).is_none());
    // A list that announces more items than it holds.
    assert!(deserialize_response(&[2, 1, 0, 0, 0, 0, 0, 0, 0, 2, 0, 0, 0, 0, 0, 0, 0, 7])
        .is_none());
    assert!(deserialize_response(&[2, 1, 0xff, 0xff, 0xff, 0xff, 0xff, 0xff, 0xff, 0xff])
        .is_none());
}

#[test]
fn permission_bits_beyond_sixteen_are_refused() {
    let mut payload = serialize_response(&Response::GetAttr(Some(attr())));
    // Behind the two bytes of kind and presence, every attribute travels
    // as eight bytes; the permissions are the thirteenth.
    let at = 2 + 12 * 8;
    assert_eq!(&payload[at..at + 8], &[0, 0, 0, 0, 0, 0, 0x0f, 0xff]);
    payload[at + 5] = 1;
    assert!(deserialize_response(&payload).is_none());
}
