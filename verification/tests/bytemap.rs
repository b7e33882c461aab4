use fuse_node::bytemap::ByteMap;
use fuse_node::bytes::{append_bytes, bytes_eq, copy_bytes};

#[test]
fn bytemap_insert_get_remove() {
    let mut map: ByteMap<u64> = ByteMap::new();
    assert!(map.is_empty());
    assert_eq!(map.insert(b"one".to_vec(), 1), None);
    assert_eq!(map.insert(b"two".to_vec(), 2), None);
    assert_eq!(map.insert(b"".to_vec(), 0), None);
    assert_eq!(map.len(), 3);
    assert!(!map.is_empty());
    assert_eq!(map.get(b"one"), Some(&1));
    assert_eq!(map.get(b"two"), Some(&2));
    assert_eq!(map.get(b""), Some(&0));
    assert_eq!(map.get(b"on"), None);
    assert!(map.contains_key(b"two"));
    assert!(!map.contains_key(b"three"));

    // A key that is there keeps its place and gets the new value.
    assert_eq!(map.insert(b"one".to_vec(), 11), Some(1));
    assert_eq!(map.len(), 3);
    assert_eq!(map.key_at(0), &b"one".to_vec());
    assert_eq!(*map.value_at(0), 11);

    // Removing keeps the order of the others.
    assert_eq!(map.remove(b"one"), Some(11));
    assert_eq!(map.remove(b"one"), None);
    assert_eq!(map.len(), 2);
    assert_eq!(map.key_at(0), &b"two".to_vec());
    assert_eq!(map.key_at(1), &b"".to_vec());
    assert_eq!(*map.value_at(1), 0);
}

#[test]
fn byte_string_helpers() {
    assert!(bytes_eq(b"abc", b"abc"));
    assert!(bytes_eq(b"", b""));
    assert!(!bytes_eq(b"abc", b"abd"));
    assert!(!bytes_eq(b"abc", b"ab"));
    assert!(!bytes_eq(b"", b"\0"));
    assert_eq!(copy_bytes(b"xyz"), b"xyz".to_vec());
    let mut head = b"/a".to_vec();
    append_bytes(&mut head, b"/b");
    assert_eq!(head, b"/a/b".to_vec());
    append_bytes(&mut head, b"");
    assert_eq!(head, b"/a/b".to_vec());
}
