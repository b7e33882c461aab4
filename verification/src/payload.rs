//! The messages of the peer protocol as bytes: how each request and each
//! response is written, how it is read back, and that reading gives back
//! what was written.

use crate::argument::ArgumentIterator;
use crate::codec::{
    dec_bytes, dec_kind, dec_opt_bytes, dec_u32, dec_u64, dec_u8, enc_bytes, enc_opt_bytes,
    get_bytes, get_kind, get_opt_bytes, get_u32, get_u64, get_u8, kind_byte, lemma_dec_bytes,
    lemma_dec_kind, lemma_dec_opt_bytes, lemma_dec_u32, lemma_dec_u64, lemma_dec_u8, put_bytes,
    put_kind, put_opt_bytes,
};
use crate::meta::{DirEntry, DirEntryView, FileAttr, FileKind, Timestamp};
use crate::peer::{
    entries_view, DistRequest, DistRequestView, OpArgs, OpArgsView, RemoveArgs, RemoveArgsView,
    RemoveDirEntryArgs, RemoveDirEntryArgsView, RenameParam, RenameParamView, Response,
    ResponseView, UpdateDirArgs, UpdateDirArgsView,
};
use crate::wire::{be_bytes32, be_bytes64, put_u32, put_u64};
use vstd::prelude::*;

verus! {

/// Joining three byte strings gives the same whichever two are joined
/// first.
pub proof fn lemma_concat_assoc(a: Seq<u8>, b: Seq<u8>, c: Seq<u8>)
    ensures
        (a + b) + c == a + (b + c),
{
    assert((a + b) + c =~= a + (b + c));
}

/// The bytes of the items of a list, one behind the other.
pub open spec fn enc_items<T>(item: spec_fn(T) -> Seq<u8>, items: Seq<T>) -> Seq<u8>
    decreases items.len(),
{
    if items.len() == 0 {
        Seq::empty()
    } else {
        enc_items(item, items.drop_last()) + item(items.last())
    }
}

/// Reads `n` items from the front of `s`, one behind the other.
pub open spec fn dec_items<T>(
    item: spec_fn(Seq<u8>) -> Option<(T, Seq<u8>)>,
    s: Seq<u8>,
    n: nat,
) -> Option<(Seq<T>, Seq<u8>)>
    decreases n,
{
    if n == 0 {
        Some((Seq::empty(), s))
    } else {
        match dec_items(item, s, (n - 1) as nat) {
            None => None,
            Some((items, rest)) => match item(rest) {
                None => None,
                Some((last, rest)) => Some((items.push(last), rest)),
            },
        }
    }
}

/// The bytes of a list: the number of its items, then the items.
pub open spec fn enc_list<T>(item: spec_fn(T) -> Seq<u8>, items: Seq<T>) -> Seq<u8> {
    be_bytes64(items.len() as u64) + enc_items(item, items)
}

/// Reads a list from the front of `s`.
pub open spec fn dec_list<T>(item: spec_fn(Seq<u8>) -> Option<(T, Seq<u8>)>, s: Seq<u8>) -> Option<
    (Seq<T>, Seq<u8>),
> {
    match dec_u64(s) {
        None => None,
        Some((n, rest)) => dec_items(item, rest, n as nat),
    }
}

/// Where the first items of a list cannot be read, no longer list can.
pub proof fn lemma_dec_items_fails_on<T>(
    item: spec_fn(Seq<u8>) -> Option<(T, Seq<u8>)>,
    s: Seq<u8>,
    few: nat,
    many: nat,
)
    requires
        few <= many,
        dec_items(item, s, few) is None,
    ensures
        dec_items(item, s, many) is None,
    decreases many,
{
    if few < many {
        lemma_dec_items_fails_on(item, s, few, (many - 1) as nat);
    }
}

/// Reading gives back the items that were written, in front of whatever
/// follows, if it gives back each of them.
pub proof fn lemma_dec_items<T>(
    enc: spec_fn(T) -> Seq<u8>,
    dec: spec_fn(Seq<u8>) -> Option<(T, Seq<u8>)>,
    items: Seq<T>,
    rest: Seq<u8>,
)
    requires
        forall|i: int, r: Seq<u8>|
            0 <= i < items.len() ==> dec(#[trigger] (enc(items[i]) + r)) == Some((items[i], r)),
    ensures
        dec_items(dec, enc_items(enc, items) + rest, items.len()) == Some((items, rest)),
    decreases items.len(),
{
    if items.len() == 0 {
        assert(enc_items(enc, items) + rest =~= rest);
        assert(items =~= Seq::<T>::empty());
    } else {
        let front = items.drop_last();
        let last = items.last();
        lemma_concat_assoc(enc_items(enc, front), enc(last), rest);
        assert forall|i: int, r: Seq<u8>| 0 <= i < front.len() implies dec(
            #[trigger] (enc(front[i]) + r),
        ) == Some((front[i], r)) by {
            assert(front[i] == items[i]);
        }
        lemma_dec_items(enc, dec, front, enc(last) + rest);
        assert(dec(enc(items[items.len() - 1]) + rest) == Some((last, rest)));
        assert(front.push(last) =~= items);
    }
}

/// Appends the numbers of `words` to `out`, eight bytes each.
pub fn put_words(out: &mut Vec<u8>, words: &[u64])
    ensures
        final(out)@ == old(out)@ + enc_items(|w: u64| be_bytes64(w), words@),
{
    let ghost enc = |w: u64| be_bytes64(w);
    let ghost start = out@;
    let mut i: usize = 0;
    assert(start + enc_items(enc, words@.take(0)) =~= start);
    while i < words.len()
        invariant
            i <= words.len(),
            enc == (|w: u64| be_bytes64(w)),
            out@ == start + enc_items(enc, words@.take(i as int)),
        decreases words.len() - i,
    {
        put_u64(out, words[i]);
        proof {
            let next = words@.take(i + 1);
            assert(next.drop_last() =~= words@.take(i as int));
            assert(next.last() == words@[i as int]);
            lemma_concat_assoc(
                start,
                enc_items(enc, words@.take(i as int)),
                be_bytes64(words@[i as int]),
            );
        }
        i = i + 1;
    }
    assert(words@.take(words.len() as int) =~= words@);
}

/// Reads `count` numbers of eight bytes each.
pub fn get_words(input: &mut ArgumentIterator, count: u64) -> (r: Option<Vec<u64>>)
    ensures
        final(input).buffer() == old(input).buffer(),
        match r {
            Some(v) => v@.len() == count && dec_items(
                |s: Seq<u8>| dec_u64(s),
                old(input).remaining(),
                count as nat,
            ) == Some((v@, final(input).remaining())),
            None => dec_items(|s: Seq<u8>| dec_u64(s), old(input).remaining(), count as nat)
                is None,
        },
{
    let ghost dec = |s: Seq<u8>| dec_u64(s);
    let ghost start = input.remaining();
    let mut words: Vec<u64> = Vec::new();
    let mut i: u64 = 0;
    while i < count
        invariant
            i <= count,
            dec == (|s: Seq<u8>| dec_u64(s)),
            start == old(input).remaining(),
            input.buffer() == old(input).buffer(),
            words@.len() == i,
            dec_items(dec, start, i as nat) == Some((words@, input.remaining())),
        decreases count - i,
    {
        match get_u64(input) {
            Some(word) => words.push(word),
            None => {
                proof {
                    assert(dec_items(dec, start, (i + 1) as nat) is None);
                    lemma_dec_items_fails_on(dec, start, (i + 1) as nat, count as nat);
                }
                return None;
            },
        }
        i = i + 1;
    }
    Some(words)
}

/// Number of the numbers that stand for the attributes of a node.
pub const ATTR_WORDS: u64 = 18;

/// The numbers that stand for the attributes of a node, in the order in
/// which they travel.
pub open spec fn attr_words(attr: FileAttr) -> Seq<u64> {
    seq![
        attr.ino,
        attr.size,
        attr.blocks,
        attr.atime.secs,
        attr.atime.nanos as u64,
        attr.mtime.secs,
        attr.mtime.nanos as u64,
        attr.ctime.secs,
        attr.ctime.nanos as u64,
        attr.crtime.secs,
        attr.crtime.nanos as u64,
        kind_byte(attr.kind) as u64,
        attr.perm as u64,
        attr.nlink as u64,
        attr.uid as u64,
        attr.gid as u64,
        attr.rdev as u64,
        attr.flags as u64,
    ]
}

/// True if the numbers of `words` stand for the attributes of a node: they
/// are as many as attributes have, and each is in the range of its field.
pub open spec fn words_are_attr(words: Seq<u64>) -> bool {
    &&& words.len() == ATTR_WORDS
    &&& words[4] <= u32::MAX && words[6] <= u32::MAX && words[8] <= u32::MAX
    &&& words[10] <= u32::MAX
    &&& words[11] <= 2
    &&& words[12] <= u16::MAX
    &&& words[13] <= u32::MAX && words[14] <= u32::MAX && words[15] <= u32::MAX
    &&& words[16] <= u32::MAX && words[17] <= u32::MAX
}

/// The kind of node that the number `word` stands for.
pub open spec fn kind_of_word(word: u64) -> FileKind {
    if word == 0 {
        FileKind::File
    } else if word == 1 {
        FileKind::Directory
    } else {
        FileKind::Symlink
    }
}

/// The attributes that the numbers of `words` stand for.
pub open spec fn attr_of_words(words: Seq<u64>) -> FileAttr {
    FileAttr {
        ino: words[0],
        size: words[1],
        blocks: words[2],
        atime: Timestamp { secs: words[3], nanos: words[4] as u32 },
        mtime: Timestamp { secs: words[5], nanos: words[6] as u32 },
        ctime: Timestamp { secs: words[7], nanos: words[8] as u32 },
        crtime: Timestamp { secs: words[9], nanos: words[10] as u32 },
        kind: kind_of_word(words[11]),
        perm: words[12] as u16,
        nlink: words[13] as u32,
        uid: words[14] as u32,
        gid: words[15] as u32,
        rdev: words[16] as u32,
        flags: words[17] as u32,
    }
}

/// The bytes of the attributes of a node: their numbers, eight bytes each.
pub open spec fn enc_attr(attr: FileAttr) -> Seq<u8> {
    enc_items(|w: u64| be_bytes64(w), attr_words(attr))
}

/// Reads the attributes of a node from the front of `s`.
pub open spec fn dec_attr(s: Seq<u8>) -> Option<(FileAttr, Seq<u8>)> {
    match dec_items(|s: Seq<u8>| dec_u64(s), s, ATTR_WORDS as nat) {
        None => None,
        Some((words, rest)) => if words_are_attr(words) {
            Some((attr_of_words(words), rest))
        } else {
            None
        },
    }
}

/// Reading gives back the attributes that were written, in front of
/// whatever follows.
pub proof fn lemma_dec_attr(attr: FileAttr, rest: Seq<u8>)
    ensures
        dec_attr(enc_attr(attr) + rest) == Some((attr, rest)),
{
    let enc = |w: u64| be_bytes64(w);
    let dec = |s: Seq<u8>| dec_u64(s);
    let words = attr_words(attr);
    assert forall|i: int, r: Seq<u8>| 0 <= i < words.len() implies dec(
        #[trigger] (enc(words[i]) + r),
    ) == Some((words[i], r)) by {
        lemma_dec_u64(words[i], r);
    }
    lemma_dec_items(enc, dec, words, rest);
    assert(words_are_attr(words));
    assert(attr_of_words(words) == attr);
}

/// Appends the attributes of a node to `out`.
pub fn put_attr(out: &mut Vec<u8>, attr: &FileAttr)
    ensures
        final(out)@ == old(out)@ + enc_attr(*attr),
{
    let kind: u64 = match attr.kind {
        FileKind::File => 0,
        FileKind::Directory => 1,
        FileKind::Symlink => 2,
    };
    let words: [u64; 18] = [
        attr.ino,
        attr.size,
        attr.blocks,
        attr.atime.secs,
        attr.atime.nanos as u64,
        attr.mtime.secs,
        attr.mtime.nanos as u64,
        attr.ctime.secs,
        attr.ctime.nanos as u64,
        attr.crtime.secs,
        attr.crtime.nanos as u64,
        kind,
        attr.perm as u64,
        attr.nlink as u64,
        attr.uid as u64,
        attr.gid as u64,
        attr.rdev as u64,
        attr.flags as u64,
    ];
    assert(words@ =~= attr_words(*attr));
    put_words(out, words.as_slice());
}

/// Reads the attributes of a node.
pub fn get_attr(input: &mut ArgumentIterator) -> (r: Option<FileAttr>)
    ensures
        final(input).buffer() == old(input).buffer(),
        match r {
            Some(v) => dec_attr(old(input).remaining()) == Some((v, final(input).remaining())),
            None => dec_attr(old(input).remaining()) is None,
        },
{
    let words = match get_words(input, ATTR_WORDS) {
        Some(words) => words,
        None => return None,
    };
    let in_range = words[4] <= 0xffff_ffff && words[6] <= 0xffff_ffff && words[8] <= 0xffff_ffff
        && words[10] <= 0xffff_ffff && words[11] <= 2 && words[12] <= 0xffff && words[13]
        <= 0xffff_ffff && words[14] <= 0xffff_ffff && words[15] <= 0xffff_ffff && words[16]
        <= 0xffff_ffff && words[17] <= 0xffff_ffff;
    if !in_range {
        return None;
    }
    let kind = if words[11] == 0 {
        FileKind::File
    } else if words[11] == 1 {
        FileKind::Directory
    } else {
        FileKind::Symlink
    };
    Some(
        FileAttr {
            ino: words[0],
            size: words[1],
            blocks: words[2],
            atime: Timestamp { secs: words[3], nanos: words[4] as u32 },
            mtime: Timestamp { secs: words[5], nanos: words[6] as u32 },
            ctime: Timestamp { secs: words[7], nanos: words[8] as u32 },
            crtime: Timestamp { secs: words[9], nanos: words[10] as u32 },
            kind,
            perm: words[12] as u16,
            nlink: words[13] as u32,
            uid: words[14] as u32,
            gid: words[15] as u32,
            rdev: words[16] as u32,
            flags: words[17] as u32,
        },
    )
}


/// The bytes of the name of a block: its fields in order.
#[verifier::opaque]
pub open spec fn enc_op_args(v: OpArgsView) -> Seq<u8> {
    enc_bytes(v.file_name) + (be_bytes64(v.index))
}

/// Reads the name of a block from the front of `s`.
#[verifier::opaque]
pub open spec fn dec_op_args(s: Seq<u8>) -> Option<(OpArgsView, Seq<u8>)> {
    match dec_bytes(s) {
        None => None,
        Some((file_name, s)) => match dec_u64(s) {
            None => None,
            Some((index, s)) => Some((OpArgsView { file_name, index }, s)),
        },
    }
}

/// True if the byte strings are short enough for their lengths to be
/// written, in the name of a block.
pub open spec fn fits_op_args(v: OpArgsView) -> bool {
    v.file_name.len() <= u64::MAX
}

/// What is read is what was written, in front of whatever follows, for
/// the name of a block.
pub proof fn lemma_dec_op_args(v: OpArgsView, rest: Seq<u8>)
    requires
        fits_op_args(v),
    ensures
        dec_op_args(enc_op_args(v) + rest) == Some((v, rest)),
{
    reveal(enc_op_args);
    reveal(dec_op_args);
    let e0 = enc_bytes(v.file_name);
    let e1 = be_bytes64(v.index);
    lemma_concat_assoc(e0, e1, rest);
    lemma_dec_bytes(v.file_name, e1 + rest);
    lemma_dec_u64(v.index, rest);
}

/// Appends the name of a block to `out`.
pub fn put_op_args(out: &mut Vec<u8>, v: &OpArgs)
    ensures
        final(out)@ == old(out)@ + enc_op_args(v@),
{
    let ghost x0 = out@;
    put_bytes(out, v.file_name.as_slice());
    let ghost x1 = out@;
    put_u64(out, v.index);
    proof {
        reveal(enc_op_args);
        let e0 = enc_bytes(v@.file_name);
        let e1 = be_bytes64(v@.index);
        lemma_concat_assoc(x0, e0, e1);
    }
}

/// Reads the name of a block.
pub fn get_op_args(input: &mut ArgumentIterator) -> (r: Option<OpArgs>)
    ensures
        final(input).buffer() == old(input).buffer(),
        match r {
            Some(v) => dec_op_args(old(input).remaining()) == Some((v@, final(input).remaining())),
            None => dec_op_args(old(input).remaining()) is None,
        },
{
    proof {
        reveal(dec_op_args);
    }
    let file_name = match get_bytes(input) {
        Some(v) => v,
        None => return None,
    };
    let index = match get_u64(input) {
        Some(v) => v,
        None => return None,
    };
    Some(OpArgs { file_name, index })
}

/// The bytes of the arguments of `UpdateDir`: its fields in order.
#[verifier::opaque]
pub open spec fn enc_update_dir_args(v: UpdateDirArgsView) -> Seq<u8> {
    enc_bytes(v.parent_path)
        + (enc_bytes(v.child_name)
        + (enc_attr(v.child_attr)
        + (enc_opt_bytes(v.target_path))))
}

/// Reads the arguments of `UpdateDir` from the front of `s`.
#[verifier::opaque]
pub open spec fn dec_update_dir_args(s: Seq<u8>) -> Option<(UpdateDirArgsView, Seq<u8>)> {
    match dec_bytes(s) {
        None => None,
        Some((parent_path, s)) => match dec_bytes(s) {
            None => None,
            Some((child_name, s)) => match dec_attr(s) {
                None => None,
                Some((child_attr, s)) => match dec_opt_bytes(s) {
                    None => None,
                    Some((target_path, s)) => Some(
                        (UpdateDirArgsView { parent_path, child_name, child_attr, target_path }, s),
                    ),
                },
            },
        },
    }
}

/// True if the byte strings are short enough for their lengths to be
/// written, in the arguments of `UpdateDir`.
pub open spec fn fits_update_dir_args(v: UpdateDirArgsView) -> bool {
    v.parent_path.len() <= u64::MAX
        && v.child_name.len() <= u64::MAX
        && (v.target_path matches Some(b) ==> b.len() <= u64::MAX)
}

/// What is read is what was written, in front of whatever follows, for
/// the arguments of `UpdateDir`.
pub proof fn lemma_dec_update_dir_args(v: UpdateDirArgsView, rest: Seq<u8>)
    requires
        fits_update_dir_args(v),
    ensures
        dec_update_dir_args(enc_update_dir_args(v) + rest) == Some((v, rest)),
{
    reveal(enc_update_dir_args);
    reveal(dec_update_dir_args);
    let e0 = enc_bytes(v.parent_path);
    let e1 = enc_bytes(v.child_name);
    let e2 = enc_attr(v.child_attr);
    let e3 = enc_opt_bytes(v.target_path);
    let s2 = e2 + e3;
    let s1 = e1 + s2;
    lemma_concat_assoc(e2, e3, rest);
    lemma_concat_assoc(e1, s2, rest);
    lemma_concat_assoc(e0, s1, rest);
    lemma_dec_bytes(v.parent_path, s1 + rest);
    lemma_dec_bytes(v.child_name, s2 + rest);
    lemma_dec_attr(v.child_attr, e3 + rest);
    lemma_dec_opt_bytes(v.target_path, rest);
}

/// Appends the arguments of `UpdateDir` to `out`.
pub fn put_update_dir_args(out: &mut Vec<u8>, v: &UpdateDirArgs)
    ensures
        final(out)@ == old(out)@ + enc_update_dir_args(v@),
{
    let ghost x0 = out@;
    put_bytes(out, v.parent_path.as_slice());
    let ghost x1 = out@;
    put_bytes(out, v.child_name.as_slice());
    let ghost x2 = out@;
    put_attr(out, &v.child_attr);
    let ghost x3 = out@;
    put_opt_bytes(out, &v.target_path);
    proof {
        reveal(enc_update_dir_args);
        let e0 = enc_bytes(v@.parent_path);
        let e1 = enc_bytes(v@.child_name);
        let e2 = enc_attr(v@.child_attr);
        let e3 = enc_opt_bytes(v@.target_path);
        let s2 = e2 + e3;
        let s1 = e1 + s2;
        lemma_concat_assoc(x2, e2, e3);
        lemma_concat_assoc(x1, e1, s2);
        lemma_concat_assoc(x0, e0, s1);
    }
}

/// Reads the arguments of `UpdateDir`.
pub fn get_update_dir_args(input: &mut ArgumentIterator) -> (r: Option<UpdateDirArgs>)
    ensures
        final(input).buffer() == old(input).buffer(),
        match r {
            Some(v) => dec_update_dir_args(old(input).remaining()) == Some(
                (v@, final(input).remaining()),
            ),
            None => dec_update_dir_args(old(input).remaining()) is None,
        },
{
    proof {
        reveal(dec_update_dir_args);
    }
    let parent_path = match get_bytes(input) {
        Some(v) => v,
        None => return None,
    };
    let child_name = match get_bytes(input) {
        Some(v) => v,
        None => return None,
    };
    let child_attr = match get_attr(input) {
        Some(v) => v,
        None => return None,
    };
    let target_path = match get_opt_bytes(input) {
        Some(v) => v,
        None => return None,
    };
    Some(UpdateDirArgs { parent_path, child_name, child_attr, target_path })
}

/// The bytes of the arguments of `RemoveDirEntry`: its fields in order.
#[verifier::opaque]
pub open spec fn enc_remove_dir_entry_args(v: RemoveDirEntryArgsView) -> Seq<u8> {
    enc_bytes(v.parent_path) + (enc_bytes(v.child_name))
}

/// Reads the arguments of `RemoveDirEntry` from the front of `s`.
#[verifier::opaque]
pub open spec fn dec_remove_dir_entry_args(s: Seq<u8>) -> Option<
    (RemoveDirEntryArgsView, Seq<u8>),
> {
    match dec_bytes(s) {
        None => None,
        Some((parent_path, s)) => match dec_bytes(s) {
            None => None,
            Some((child_name, s)) => Some((RemoveDirEntryArgsView { parent_path, child_name }, s)),
        },
    }
}

/// True if the byte strings are short enough for their lengths to be
/// written, in the arguments of `RemoveDirEntry`.
pub open spec fn fits_remove_dir_entry_args(v: RemoveDirEntryArgsView) -> bool {
    v.parent_path.len() <= u64::MAX
        && v.child_name.len() <= u64::MAX
}

/// What is read is what was written, in front of whatever follows, for
/// the arguments of `RemoveDirEntry`.
pub proof fn lemma_dec_remove_dir_entry_args(v: RemoveDirEntryArgsView, rest: Seq<u8>)
    requires
        fits_remove_dir_entry_args(v),
    ensures
        dec_remove_dir_entry_args(enc_remove_dir_entry_args(v) + rest) == Some((v, rest)),
{
    reveal(enc_remove_dir_entry_args);
    reveal(dec_remove_dir_entry_args);
    let e0 = enc_bytes(v.parent_path);
    let e1 = enc_bytes(v.child_name);
    lemma_concat_assoc(e0, e1, rest);
    lemma_dec_bytes(v.parent_path, e1 + rest);
    lemma_dec_bytes(v.child_name, rest);
}

/// Appends the arguments of `RemoveDirEntry` to `out`.
pub fn put_remove_dir_entry_args(out: &mut Vec<u8>, v: &RemoveDirEntryArgs)
    ensures
        final(out)@ == old(out)@ + enc_remove_dir_entry_args(v@),
{
    let ghost x0 = out@;
    put_bytes(out, v.parent_path.as_slice());
    let ghost x1 = out@;
    put_bytes(out, v.child_name.as_slice());
    proof {
        reveal(enc_remove_dir_entry_args);
        let e0 = enc_bytes(v@.parent_path);
        let e1 = enc_bytes(v@.child_name);
        lemma_concat_assoc(x0, e0, e1);
    }
}

/// Reads the arguments of `RemoveDirEntry`.
pub fn get_remove_dir_entry_args(input: &mut ArgumentIterator) -> (r: Option<RemoveDirEntryArgs>)
    ensures
        final(input).buffer() == old(input).buffer(),
        match r {
            Some(v) => dec_remove_dir_entry_args(old(input).remaining()) == Some(
                (v@, final(input).remaining()),
            ),
            None => dec_remove_dir_entry_args(old(input).remaining()) is None,
        },
{
    proof {
        reveal(dec_remove_dir_entry_args);
    }
    let parent_path = match get_bytes(input) {
        Some(v) => v,
        None => return None,
    };
    let child_name = match get_bytes(input) {
        Some(v) => v,
        None => return None,
    };
    Some(RemoveDirEntryArgs { parent_path, child_name })
}

/// The bytes of the arguments of `Remove`: its fields in order.
#[verifier::opaque]
pub open spec fn enc_remove_args(v: RemoveArgsView) -> Seq<u8> {
    be_bytes64(v.parent) + (enc_bytes(v.child_name) + (seq![kind_byte(v.child_type)]))
}

/// Reads the arguments of `Remove` from the front of `s`.
#[verifier::opaque]
pub open spec fn dec_remove_args(s: Seq<u8>) -> Option<(RemoveArgsView, Seq<u8>)> {
    match dec_u64(s) {
        None => None,
        Some((parent, s)) => match dec_bytes(s) {
            None => None,
            Some((child_name, s)) => match dec_kind(s) {
                None => None,
                Some((child_type, s)) => Some(
                    (RemoveArgsView { parent, child_name, child_type }, s),
                ),
            },
        },
    }
}

/// True if the byte strings are short enough for their lengths to be
/// written, in the arguments of `Remove`.
pub open spec fn fits_remove_args(v: RemoveArgsView) -> bool {
    v.child_name.len() <= u64::MAX
}

/// What is read is what was written, in front of whatever follows, for
/// the arguments of `Remove`.
pub proof fn lemma_dec_remove_args(v: RemoveArgsView, rest: Seq<u8>)
    requires
        fits_remove_args(v),
    ensures
        dec_remove_args(enc_remove_args(v) + rest) == Some((v, rest)),
{
    reveal(enc_remove_args);
    reveal(dec_remove_args);
    let e0 = be_bytes64(v.parent);
    let e1 = enc_bytes(v.child_name);
    let e2 = seq![kind_byte(v.child_type)];
    let s1 = e1 + e2;
    lemma_concat_assoc(e1, e2, rest);
    lemma_concat_assoc(e0, s1, rest);
    lemma_dec_u64(v.parent, s1 + rest);
    lemma_dec_bytes(v.child_name, e2 + rest);
    lemma_dec_kind(v.child_type, rest);
}

/// Appends the arguments of `Remove` to `out`.
pub fn put_remove_args(out: &mut Vec<u8>, v: &RemoveArgs)
    ensures
        final(out)@ == old(out)@ + enc_remove_args(v@),
{
    let ghost x0 = out@;
    put_u64(out, v.parent);
    let ghost x1 = out@;
    put_bytes(out, v.child_name.as_slice());
    let ghost x2 = out@;
    put_kind(out, v.child_type);
    proof {
        reveal(enc_remove_args);
        let e0 = be_bytes64(v@.parent);
        let e1 = enc_bytes(v@.child_name);
        let e2 = seq![kind_byte(v@.child_type)];
        let s1 = e1 + e2;
        lemma_concat_assoc(x1, e1, e2);
        lemma_concat_assoc(x0, e0, s1);
    }
}

/// Reads the arguments of `Remove`.
pub fn get_remove_args(input: &mut ArgumentIterator) -> (r: Option<RemoveArgs>)
    ensures
        final(input).buffer() == old(input).buffer(),
        match r {
            Some(v) => dec_remove_args(old(input).remaining()) == Some(
                (v@, final(input).remaining()),
            ),
            None => dec_remove_args(old(input).remaining()) is None,
        },
{
    proof {
        reveal(dec_remove_args);
    }
    let parent = match get_u64(input) {
        Some(v) => v,
        None => return None,
    };
    let child_name = match get_bytes(input) {
        Some(v) => v,
        None => return None,
    };
    let child_type = match get_kind(input) {
        Some(v) => v,
        None => return None,
    };
    Some(RemoveArgs { parent, child_name, child_type })
}

/// The bytes of the arguments of `Rename`: its fields in order.
#[verifier::opaque]
pub open spec fn enc_rename_param(v: RenameParamView) -> Seq<u8> {
    be_bytes64(v.old_parent)
        + (enc_bytes(v.old_name)
        + (be_bytes64(v.new_parent)
        + (enc_bytes(v.new_name)
        + (be_bytes32(v.flags)))))
}

/// Reads the arguments of `Rename` from the front of `s`.
#[verifier::opaque]
pub open spec fn dec_rename_param(s: Seq<u8>) -> Option<(RenameParamView, Seq<u8>)> {
    match dec_u64(s) {
        None => None,
        Some((old_parent, s)) => match dec_bytes(s) {
            None => None,
            Some((old_name, s)) => match dec_u64(s) {
                None => None,
                Some((new_parent, s)) => match dec_bytes(s) {
                    None => None,
                    Some((new_name, s)) => match dec_u32(s) {
                        None => None,
                        Some((flags, s)) => Some(
                            (
                                RenameParamView {
                                    old_parent,
                                    old_name,
                                    new_parent,
                                    new_name,
                                    flags,
                                },
                                s,
                            ),
                        ),
                    },
                },
            },
        },
    }
}

/// True if the byte strings are short enough for their lengths to be
/// written, in the arguments of `Rename`.
pub open spec fn fits_rename_param(v: RenameParamView) -> bool {
    v.old_name.len() <= u64::MAX
        && v.new_name.len() <= u64::MAX
}

/// What is read is what was written, in front of whatever follows, for
/// the arguments of `Rename`.
pub proof fn lemma_dec_rename_param(v: RenameParamView, rest: Seq<u8>)
    requires
        fits_rename_param(v),
    ensures
        dec_rename_param(enc_rename_param(v) + rest) == Some((v, rest)),
{
    reveal(enc_rename_param);
    reveal(dec_rename_param);
    let e0 = be_bytes64(v.old_parent);
    let e1 = enc_bytes(v.old_name);
    let e2 = be_bytes64(v.new_parent);
    let e3 = enc_bytes(v.new_name);
    let e4 = be_bytes32(v.flags);
    let s3 = e3 + e4;
    let s2 = e2 + s3;
    let s1 = e1 + s2;
    lemma_concat_assoc(e3, e4, rest);
    lemma_concat_assoc(e2, s3, rest);
    lemma_concat_assoc(e1, s2, rest);
    lemma_concat_assoc(e0, s1, rest);
    lemma_dec_u64(v.old_parent, s1 + rest);
    lemma_dec_bytes(v.old_name, s2 + rest);
    lemma_dec_u64(v.new_parent, s3 + rest);
    lemma_dec_bytes(v.new_name, e4 + rest);
    lemma_dec_u32(v.flags, rest);
}

/// Appends the arguments of `Rename` to `out`.
pub fn put_rename_param(out: &mut Vec<u8>, v: &RenameParam)
    ensures
        final(out)@ == old(out)@ + enc_rename_param(v@),
{
    let ghost x0 = out@;
    put_u64(out, v.old_parent);
    let ghost x1 = out@;
    put_bytes(out, v.old_name.as_slice());
    let ghost x2 = out@;
    put_u64(out, v.new_parent);
    let ghost x3 = out@;
    put_bytes(out, v.new_name.as_slice());
    let ghost x4 = out@;
    put_u32(out, v.flags);
    proof {
        reveal(enc_rename_param);
        let e0 = be_bytes64(v@.old_parent);
        let e1 = enc_bytes(v@.old_name);
        let e2 = be_bytes64(v@.new_parent);
        let e3 = enc_bytes(v@.new_name);
        let e4 = be_bytes32(v@.flags);
        let s3 = e3 + e4;
        let s2 = e2 + s3;
        let s1 = e1 + s2;
        lemma_concat_assoc(x3, e3, e4);
        lemma_concat_assoc(x2, e2, s3);
        lemma_concat_assoc(x1, e1, s2);
        lemma_concat_assoc(x0, e0, s1);
    }
}

/// Reads the arguments of `Rename`.
pub fn get_rename_param(input: &mut ArgumentIterator) -> (r: Option<RenameParam>)
    ensures
        final(input).buffer() == old(input).buffer(),
        match r {
            Some(v) => dec_rename_param(old(input).remaining()) == Some(
                (v@, final(input).remaining()),
            ),
            None => dec_rename_param(old(input).remaining()) is None,
        },
{
    proof {
        reveal(dec_rename_param);
    }
    let old_parent = match get_u64(input) {
        Some(v) => v,
        None => return None,
    };
    let old_name = match get_bytes(input) {
        Some(v) => v,
        None => return None,
    };
    let new_parent = match get_u64(input) {
        Some(v) => v,
        None => return None,
    };
    let new_name = match get_bytes(input) {
        Some(v) => v,
        None => return None,
    };
    let flags = match get_u32(input) {
        Some(v) => v,
        None => return None,
    };
    Some(RenameParam { old_parent, old_name, new_parent, new_name, flags })
}

/// The bytes of an entry of a directory: its fields in order.
#[verifier::opaque]
pub open spec fn enc_entry(v: DirEntryView) -> Seq<u8> {
    be_bytes64(v.ino) + (enc_bytes(v.name) + (seq![kind_byte(v.kind)]))
}

/// Reads an entry of a directory from the front of `s`.
#[verifier::opaque]
pub open spec fn dec_entry(s: Seq<u8>) -> Option<(DirEntryView, Seq<u8>)> {
    match dec_u64(s) {
        None => None,
        Some((ino, s)) => match dec_bytes(s) {
            None => None,
            Some((name, s)) => match dec_kind(s) {
                None => None,
                Some((kind, s)) => Some((DirEntryView { ino, name, kind }, s)),
            },
        },
    }
}

/// True if the byte strings are short enough for their lengths to be
/// written, in an entry of a directory.
pub open spec fn fits_entry(v: DirEntryView) -> bool {
    v.name.len() <= u64::MAX
}

/// What is read is what was written, in front of whatever follows, for
/// an entry of a directory.
pub proof fn lemma_dec_entry(v: DirEntryView, rest: Seq<u8>)
    requires
        fits_entry(v),
    ensures
        dec_entry(enc_entry(v) + rest) == Some((v, rest)),
{
    reveal(enc_entry);
    reveal(dec_entry);
    let e0 = be_bytes64(v.ino);
    let e1 = enc_bytes(v.name);
    let e2 = seq![kind_byte(v.kind)];
    let s1 = e1 + e2;
    lemma_concat_assoc(e1, e2, rest);
    lemma_concat_assoc(e0, s1, rest);
    lemma_dec_u64(v.ino, s1 + rest);
    lemma_dec_bytes(v.name, e2 + rest);
    lemma_dec_kind(v.kind, rest);
}

/// Appends an entry of a directory to `out`.
pub fn put_entry(out: &mut Vec<u8>, v: &DirEntry)
    ensures
        final(out)@ == old(out)@ + enc_entry(v@),
{
    let ghost x0 = out@;
    put_u64(out, v.ino);
    let ghost x1 = out@;
    put_bytes(out, v.name.as_slice());
    let ghost x2 = out@;
    put_kind(out, v.kind);
    proof {
        reveal(enc_entry);
        let e0 = be_bytes64(v@.ino);
        let e1 = enc_bytes(v@.name);
        let e2 = seq![kind_byte(v@.kind)];
        let s1 = e1 + e2;
        lemma_concat_assoc(x1, e1, e2);
        lemma_concat_assoc(x0, e0, s1);
    }
}

/// Reads an entry of a directory.
pub fn get_entry(input: &mut ArgumentIterator) -> (r: Option<DirEntry>)
    ensures
        final(input).buffer() == old(input).buffer(),
        match r {
            Some(v) => dec_entry(old(input).remaining()) == Some((v@, final(input).remaining())),
            None => dec_entry(old(input).remaining()) is None,
        },
{
    proof {
        reveal(dec_entry);
    }
    let ino = match get_u64(input) {
        Some(v) => v,
        None => return None,
    };
    let name = match get_bytes(input) {
        Some(v) => v,
        None => return None,
    };
    let kind = match get_kind(input) {
        Some(v) => v,
        None => return None,
    };
    Some(DirEntry { ino, name, kind })
}

/// The bytes of a list of block indexes.
pub open spec fn enc_blocks(blocks: Seq<u64>) -> Seq<u8> {
    enc_list(|b: u64| be_bytes64(b), blocks)
}

/// Reads a list of block indexes from the front of `s`.
pub open spec fn dec_blocks(s: Seq<u8>) -> Option<(Seq<u64>, Seq<u8>)> {
    dec_list(|s: Seq<u8>| dec_u64(s), s)
}

/// The bytes of a listing of a directory.
pub open spec fn enc_entries(entries: Seq<DirEntryView>) -> Seq<u8> {
    enc_list(|e: DirEntryView| enc_entry(e), entries)
}

/// Reads a listing of a directory from the front of `s`.
pub open spec fn dec_entries(s: Seq<u8>) -> Option<(Seq<DirEntryView>, Seq<u8>)> {
    dec_list(|s: Seq<u8>| dec_entry(s), s)
}

/// Reading gives back the block indexes that were written, in front of
/// whatever follows.
pub proof fn lemma_dec_blocks(blocks: Seq<u64>, rest: Seq<u8>)
    requires
        blocks.len() <= u64::MAX,
    ensures
        dec_blocks(enc_blocks(blocks) + rest) == Some((blocks, rest)),
{
    let enc = |b: u64| be_bytes64(b);
    let dec = |s: Seq<u8>| dec_u64(s);
    assert forall|i: int, r: Seq<u8>| 0 <= i < blocks.len() implies dec(
        #[trigger] (enc(blocks[i]) + r),
    ) == Some((blocks[i], r)) by {
        lemma_dec_u64(blocks[i], r);
    }
    lemma_dec_items(enc, dec, blocks, rest);
    lemma_concat_assoc(be_bytes64(blocks.len() as u64), enc_items(enc, blocks), rest);
    lemma_dec_u64(blocks.len() as u64, enc_items(enc, blocks) + rest);
}

/// Reading gives back the listing that was written, in front of whatever
/// follows.
pub proof fn lemma_dec_entries(entries: Seq<DirEntryView>, rest: Seq<u8>)
    requires
        entries.len() <= u64::MAX,
        forall|i: int| 0 <= i < entries.len() ==> fits_entry(#[trigger] entries[i]),
    ensures
        dec_entries(enc_entries(entries) + rest) == Some((entries, rest)),
{
    let enc = |e: DirEntryView| enc_entry(e);
    let dec = |s: Seq<u8>| dec_entry(s);
    assert forall|i: int, r: Seq<u8>| 0 <= i < entries.len() implies dec(
        #[trigger] (enc(entries[i]) + r),
    ) == Some((entries[i], r)) by {
        lemma_dec_entry(entries[i], r);
    }
    lemma_dec_items(enc, dec, entries, rest);
    lemma_concat_assoc(be_bytes64(entries.len() as u64), enc_items(enc, entries), rest);
    lemma_dec_u64(entries.len() as u64, enc_items(enc, entries) + rest);
}

/// Appends a list of block indexes to `out`.
pub fn put_blocks(out: &mut Vec<u8>, blocks: &Vec<u64>)
    ensures
        final(out)@ == old(out)@ + enc_blocks(blocks@),
{
    put_u64(out, blocks.len() as u64);
    put_words(out, blocks.as_slice());
    proof {
        lemma_concat_assoc(
            old(out)@,
            be_bytes64(blocks.len() as u64),
            enc_items(|b: u64| be_bytes64(b), blocks@),
        );
    }
}

/// Appends a listing of a directory to `out`.
pub fn put_entries(out: &mut Vec<u8>, entries: &Vec<DirEntry>)
    ensures
        final(out)@ == old(out)@ + enc_entries(entries_view(entries@)),
{
    let ghost enc = |e: DirEntryView| enc_entry(e);
    let ghost views = entries_view(entries@);
    put_u64(out, entries.len() as u64);
    let ghost start = out@;
    let mut i: usize = 0;
    while i < entries.len()
        invariant
            i <= entries.len(),
            enc == (|e: DirEntryView| enc_entry(e)),
            views == entries_view(entries@),
            out@ == start + enc_items(enc, views.take(i as int)),
        decreases entries.len() - i,
    {
        put_entry(out, &entries[i]);
        proof {
            let next = views.take(i + 1);
            assert(next.drop_last() =~= views.take(i as int));
            assert(next.last() == entries@[i as int]@);
            lemma_concat_assoc(
                start,
                enc_items(enc, views.take(i as int)),
                enc_entry(entries@[i as int]@),
            );
        }
        i = i + 1;
    }
    proof {
        assert(views.take(entries.len() as int) =~= views);
        lemma_concat_assoc(old(out)@, be_bytes64(entries.len() as u64), enc_items(enc, views));
    }
}

/// Reads a list of block indexes.
pub fn get_blocks(input: &mut ArgumentIterator) -> (r: Option<Vec<u64>>)
    ensures
        final(input).buffer() == old(input).buffer(),
        match r {
            Some(v) => dec_blocks(old(input).remaining()) == Some((v@, final(input).remaining())),
            None => dec_blocks(old(input).remaining()) is None,
        },
{
    match get_u64(input) {
        Some(count) => get_words(input, count),
        None => None,
    }
}

/// Reads a listing of a directory.
pub fn get_entries(input: &mut ArgumentIterator) -> (r: Option<Vec<DirEntry>>)
    ensures
        final(input).buffer() == old(input).buffer(),
        match r {
            Some(v) => dec_entries(old(input).remaining()) == Some(
                (entries_view(v@), final(input).remaining()),
            ),
            None => dec_entries(old(input).remaining()) is None,
        },
{
    let ghost dec = |s: Seq<u8>| dec_entry(s);
    let ghost whole = input.remaining();
    let count = match get_u64(input) {
        Some(count) => count,
        None => return None,
    };
    let ghost start = input.remaining();
    let mut entries: Vec<DirEntry> = Vec::new();
    let mut i: u64 = 0;
    while i < count
        invariant
            i <= count,
            dec == (|s: Seq<u8>| dec_entry(s)),
            whole == old(input).remaining(),
            input.buffer() == old(input).buffer(),
            dec_u64(whole) == Some((count, start)),
            dec_items(dec, start, i as nat) == Some((entries_view(entries@), input.remaining())),
        decreases count - i,
    {
        match get_entry(input) {
            Some(entry) => {
                let ghost before = entries_view(entries@);
                entries.push(entry);
                assert(entries_view(entries@) =~= before.push(entry@));
            },
            None => {
                proof {
                    assert(dec_items(dec, start, (i + 1) as nat) is None);
                    lemma_dec_items_fails_on(dec, start, (i + 1) as nat, count as nat);
                }
                return None;
            },
        }
        i = i + 1;
    }
    Some(entries)
}


/// True if every byte string and list of the request is short enough for
/// its length to be written.
pub open spec fn fits_request(request: DistRequestView) -> bool {
    match request {
        DistRequestView::Invalidate(args) => fits_op_args(args),
        DistRequestView::CheckAvailable(args) => fits_op_args(args),
        DistRequestView::Read(args) => fits_op_args(args),
        DistRequestView::LoadDir(path) => path.len() <= u64::MAX,
        DistRequestView::UpdateDir(args) => fits_update_dir_args(args),
        DistRequestView::RemoveDirEntry(args) => fits_remove_dir_entry_args(args),
        DistRequestView::GetFileAttr(path) => path.len() <= u64::MAX,
        DistRequestView::PushFileAttr((path, _)) => path.len() <= u64::MAX,
        DistRequestView::Rename(args) => fits_rename_param(args),
        DistRequestView::Remove(args) => fits_remove_args(args),
        _ => true,
    }
}

/// The payload that carries a request: the byte of its kind, then its
/// arguments.
pub open spec fn enc_request(request: DistRequestView) -> Seq<u8> {
    match request {
        DistRequestView::TurnOff => seq![0u8],
        DistRequestView::Invalidate(args) => seq![1u8] + enc_op_args(args),
        DistRequestView::CheckAvailable(args) => seq![2u8] + enc_op_args(args),
        DistRequestView::Read(args) => seq![3u8] + enc_op_args(args),
        DistRequestView::LoadDir(path) => seq![4u8] + enc_bytes(path),
        DistRequestView::UpdateDir(args) => seq![5u8] + enc_update_dir_args(args),
        DistRequestView::RemoveDirEntry(args) => seq![6u8] + enc_remove_dir_entry_args(args),
        DistRequestView::GetFileAttr(path) => seq![7u8] + enc_bytes(path),
        DistRequestView::PushFileAttr((path, attr)) => seq![8u8] + (enc_bytes(path) + enc_attr(
            attr,
        )),
        DistRequestView::Rename(args) => seq![9u8] + enc_rename_param(args),
        DistRequestView::Remove(args) => seq![10u8] + enc_remove_args(args),
        DistRequestView::GetInodeNum => seq![11u8],
    }
}

/// Reads a path and the attributes behind it from the front of `s`.
pub open spec fn dec_path_and_attr(s: Seq<u8>) -> Option<((Seq<u8>, FileAttr), Seq<u8>)> {
    match dec_bytes(s) {
        None => None,
        Some((path, rest)) => match dec_attr(rest) {
            None => None,
            Some((attr, rest)) => Some(((path, attr), rest)),
        },
    }
}

/// Pairs what was read with the message that it belongs to.
pub open spec fn tagged<A, M>(read: Option<(A, Seq<u8>)>, wrap: spec_fn(A) -> M) -> Option<
    (M, Seq<u8>),
> {
    match read {
        None => None,
        Some((a, rest)) => Some((wrap(a), rest)),
    }
}

/// Reads a request from the front of `s`.
pub open spec fn dec_request(s: Seq<u8>) -> Option<(DistRequestView, Seq<u8>)> {
    match dec_u8(s) {
        None => None,
        Some((tag, rest)) => if tag == 0 {
            Some((DistRequestView::TurnOff, rest))
        } else if tag == 1 {
            tagged(dec_op_args(rest), |a: OpArgsView| DistRequestView::Invalidate(a))
        } else if tag == 2 {
            tagged(dec_op_args(rest), |a: OpArgsView| DistRequestView::CheckAvailable(a))
        } else if tag == 3 {
            tagged(dec_op_args(rest), |a: OpArgsView| DistRequestView::Read(a))
        } else if tag == 4 {
            tagged(dec_bytes(rest), |p: Seq<u8>| DistRequestView::LoadDir(p))
        } else if tag == 5 {
            tagged(
                dec_update_dir_args(rest),
                |a: UpdateDirArgsView| DistRequestView::UpdateDir(a),
            )
        } else if tag == 6 {
            tagged(
                dec_remove_dir_entry_args(rest),
                |a: RemoveDirEntryArgsView| DistRequestView::RemoveDirEntry(a),
            )
        } else if tag == 7 {
            tagged(dec_bytes(rest), |p: Seq<u8>| DistRequestView::GetFileAttr(p))
        } else if tag == 8 {
            tagged(
                dec_path_and_attr(rest),
                |a: (Seq<u8>, FileAttr)| DistRequestView::PushFileAttr(a),
            )
        } else if tag == 9 {
            tagged(dec_rename_param(rest), |a: RenameParamView| DistRequestView::Rename(a))
        } else if tag == 10 {
            tagged(dec_remove_args(rest), |a: RemoveArgsView| DistRequestView::Remove(a))
        } else if tag == 11 {
            Some((DistRequestView::GetInodeNum, rest))
        } else {
            None
        },
    }
}

/// The message that a payload carries: what is read from its front, if
/// nothing follows.
pub open spec fn whole<M>(read: Option<(M, Seq<u8>)>) -> Option<M> {
    match read {
        Some((message, rest)) => if rest.len() == 0 {
            Some(message)
        } else {
            None
        },
        None => None,
    }
}

/// Reading gives back the request that was written, in front of whatever
/// follows.
pub proof fn lemma_dec_request(request: DistRequestView, rest: Seq<u8>)
    requires
        fits_request(request),
    ensures
        dec_request(enc_request(request) + rest) == Some((request, rest)),
{
    match request {
        DistRequestView::TurnOff => {
            lemma_dec_u8(0, rest);
        },
        DistRequestView::Invalidate(args) => {
            lemma_concat_assoc(seq![1u8], enc_op_args(args), rest);
            lemma_dec_u8(1, enc_op_args(args) + rest);
            lemma_dec_op_args(args, rest);
        },
        DistRequestView::CheckAvailable(args) => {
            lemma_concat_assoc(seq![2u8], enc_op_args(args), rest);
            lemma_dec_u8(2, enc_op_args(args) + rest);
            lemma_dec_op_args(args, rest);
        },
        DistRequestView::Read(args) => {
            lemma_concat_assoc(seq![3u8], enc_op_args(args), rest);
            lemma_dec_u8(3, enc_op_args(args) + rest);
            lemma_dec_op_args(args, rest);
        },
        DistRequestView::LoadDir(path) => {
            lemma_concat_assoc(seq![4u8], enc_bytes(path), rest);
            lemma_dec_u8(4, enc_bytes(path) + rest);
            lemma_dec_bytes(path, rest);
        },
        DistRequestView::UpdateDir(args) => {
            lemma_concat_assoc(seq![5u8], enc_update_dir_args(args), rest);
            lemma_dec_u8(5, enc_update_dir_args(args) + rest);
            lemma_dec_update_dir_args(args, rest);
        },
        DistRequestView::RemoveDirEntry(args) => {
            lemma_concat_assoc(seq![6u8], enc_remove_dir_entry_args(args), rest);
            lemma_dec_u8(6, enc_remove_dir_entry_args(args) + rest);
            lemma_dec_remove_dir_entry_args(args, rest);
        },
        DistRequestView::GetFileAttr(path) => {
            lemma_concat_assoc(seq![7u8], enc_bytes(path), rest);
            lemma_dec_u8(7, enc_bytes(path) + rest);
            lemma_dec_bytes(path, rest);
        },
        DistRequestView::PushFileAttr((path, attr)) => {
            lemma_concat_assoc(seq![8u8], enc_bytes(path) + enc_attr(attr), rest);
            lemma_concat_assoc(enc_bytes(path), enc_attr(attr), rest);
            lemma_dec_u8(8, enc_bytes(path) + (enc_attr(attr) + rest));
            lemma_dec_bytes(path, enc_attr(attr) + rest);
            lemma_dec_attr(attr, rest);
        },
        DistRequestView::Rename(args) => {
            lemma_concat_assoc(seq![9u8], enc_rename_param(args), rest);
            lemma_dec_u8(9, enc_rename_param(args) + rest);
            lemma_dec_rename_param(args, rest);
        },
        DistRequestView::Remove(args) => {
            lemma_concat_assoc(seq![10u8], enc_remove_args(args), rest);
            lemma_dec_u8(10, enc_remove_args(args) + rest);
            lemma_dec_remove_args(args, rest);
        },
        DistRequestView::GetInodeNum => {
            lemma_dec_u8(11, rest);
        },
    }
}

/// Decoding the payload of a request gives the request back.
pub proof fn lemma_request_round_trip(request: DistRequestView)
    requires
        fits_request(request),
    ensures
        whole(dec_request(enc_request(request))) == Some(request),
{
    lemma_dec_request(request, Seq::empty());
    assert(enc_request(request) + Seq::<u8>::empty() =~= enc_request(request));
}

/// The payload that carries `request`.
pub fn serialize_request(request: &DistRequest) -> (payload: Vec<u8>)
    ensures
        payload@ == enc_request(request@),
{
    let mut payload: Vec<u8> = Vec::new();
    let out = &mut payload;
    match request {
        DistRequest::TurnOff => {
            out.push(0);
        },
        DistRequest::Invalidate(args) => {
            out.push(1);
            put_op_args(out, args);
        },
        DistRequest::CheckAvailable(args) => {
            out.push(2);
            put_op_args(out, args);
        },
        DistRequest::Read(args) => {
            out.push(3);
            put_op_args(out, args);
        },
        DistRequest::LoadDir(path) => {
            out.push(4);
            put_bytes(out, path.as_slice());
        },
        DistRequest::UpdateDir(args) => {
            out.push(5);
            put_update_dir_args(out, args);
        },
        DistRequest::RemoveDirEntry(args) => {
            out.push(6);
            put_remove_dir_entry_args(out, args);
        },
        DistRequest::GetFileAttr(path) => {
            out.push(7);
            put_bytes(out, path.as_slice());
        },
        DistRequest::PushFileAttr((path, attr)) => {
            out.push(8);
            let ghost tagged = out@;
            put_bytes(out, path.as_slice());
            put_attr(out, attr);
            proof {
                lemma_concat_assoc(tagged, enc_bytes(path@), enc_attr(*attr));
            }
        },
        DistRequest::Rename(args) => {
            out.push(9);
            put_rename_param(out, args);
        },
        DistRequest::Remove(args) => {
            out.push(10);
            put_remove_args(out, args);
        },
        DistRequest::GetInodeNum => {
            out.push(11);
        },
    }
    assert(payload@ =~= enc_request(request@));
    payload
}

/// The payload of the request to shut down, which a server sends itself.
pub fn turnoff() -> (payload: Vec<u8>)
    ensures
        payload@ == enc_request(DistRequestView::TurnOff),
{
    serialize_request(&DistRequest::TurnOff)
}

/// Reads a request.
pub fn get_request(input: &mut ArgumentIterator) -> (r: Option<DistRequest>)
    ensures
        final(input).buffer() == old(input).buffer(),
        match r {
            Some(v) => dec_request(old(input).remaining()) == Some(
                (v@, final(input).remaining()),
            ),
            None => dec_request(old(input).remaining()) is None,
        },
{
    let tag = match get_u8(input) {
        Some(tag) => tag,
        None => return None,
    };
    match tag {
        0 => Some(DistRequest::TurnOff),
        1 => match get_op_args(input) {
            Some(args) => Some(DistRequest::Invalidate(args)),
            None => None,
        },
        2 => match get_op_args(input) {
            Some(args) => Some(DistRequest::CheckAvailable(args)),
            None => None,
        },
        3 => match get_op_args(input) {
            Some(args) => Some(DistRequest::Read(args)),
            None => None,
        },
        4 => match get_bytes(input) {
            Some(path) => Some(DistRequest::LoadDir(path)),
            None => None,
        },
        5 => match get_update_dir_args(input) {
            Some(args) => Some(DistRequest::UpdateDir(args)),
            None => None,
        },
        6 => match get_remove_dir_entry_args(input) {
            Some(args) => Some(DistRequest::RemoveDirEntry(args)),
            None => None,
        },
        7 => match get_bytes(input) {
            Some(path) => Some(DistRequest::GetFileAttr(path)),
            None => None,
        },
        8 => {
            let path = match get_bytes(input) {
                Some(path) => path,
                None => return None,
            };
            match get_attr(input) {
                Some(attr) => Some(DistRequest::PushFileAttr((path, attr))),
                None => None,
            }
        },
        9 => match get_rename_param(input) {
            Some(args) => Some(DistRequest::Rename(args)),
            None => None,
        },
        10 => match get_remove_args(input) {
            Some(args) => Some(DistRequest::Remove(args)),
            None => None,
        },
        11 => Some(DistRequest::GetInodeNum),
        _ => None,
    }
}

/// Decodes the payload of a request. Returns `None` where the payload is
/// not that of a request, or where bytes follow the request.
pub fn deserialize_cache(payload: &[u8]) -> (r: Option<DistRequest>)
    ensures
        match r {
            Some(request) => whole(dec_request(payload@)) == Some(request@),
            None => whole(dec_request(payload@)) is None,
        },
{
    let mut input = ArgumentIterator::new(payload);
    assert(input.remaining() =~= payload@);
    match get_request(&mut input) {
        Some(request) => if input.len() == 0 {
            Some(request)
        } else {
            None
        },
        None => None,
    }
}

/// True if every byte string and list of the response is short enough for
/// its length to be written.
pub open spec fn fits_response(response: ResponseView) -> bool {
    match response {
        ResponseView::CheckAvailable(Some(blocks)) => blocks.len() <= u64::MAX,
        ResponseView::LoadDir(Some(entries)) => entries.len() <= u64::MAX && forall|i: int|
            0 <= i < entries.len() ==> fits_entry(#[trigger] entries[i]),
        _ => true,
    }
}

/// The payload that carries a response: the byte of its kind, then what
/// it holds. What may be missing travels behind a byte that says whether
/// it is there.
pub open spec fn enc_response(response: ResponseView) -> Seq<u8> {
    match response {
        ResponseView::TurnOff => seq![0u8],
        ResponseView::Invalidate => seq![1u8],
        ResponseView::CheckAvailable(None) => seq![2u8] + seq![0u8],
        ResponseView::CheckAvailable(Some(blocks)) => seq![2u8] + (seq![1u8] + enc_blocks(
            blocks,
        )),
        ResponseView::LoadDir(None) => seq![3u8] + seq![0u8],
        ResponseView::LoadDir(Some(entries)) => seq![3u8] + (seq![1u8] + enc_entries(entries)),
        ResponseView::UpdateDir => seq![4u8],
        ResponseView::GetAttr(None) => seq![5u8] + seq![0u8],
        ResponseView::GetAttr(Some(attr)) => seq![5u8] + (seq![1u8] + enc_attr(attr)),
        ResponseView::PushAttr => seq![6u8],
        ResponseView::Rename => seq![7u8],
        ResponseView::Remove => seq![8u8],
    }
}

/// Reads what may be missing: a zero byte for nothing, or a one byte and
/// what `read` reads.
pub open spec fn dec_option<A>(
    read: spec_fn(Seq<u8>) -> Option<(A, Seq<u8>)>,
    s: Seq<u8>,
) -> Option<(Option<A>, Seq<u8>)> {
    match dec_u8(s) {
        None => None,
        Some((flag, rest)) => if flag == 0 {
            Some((None, rest))
        } else if flag == 1 {
            match read(rest) {
                None => None,
                Some((a, rest)) => Some((Some(a), rest)),
            }
        } else {
            None
        },
    }
}

/// Reads a response from the front of `s`.
pub open spec fn dec_response(s: Seq<u8>) -> Option<(ResponseView, Seq<u8>)> {
    match dec_u8(s) {
        None => None,
        Some((tag, rest)) => if tag == 0 {
            Some((ResponseView::TurnOff, rest))
        } else if tag == 1 {
            Some((ResponseView::Invalidate, rest))
        } else if tag == 2 {
            tagged(
                dec_option(|s: Seq<u8>| dec_blocks(s), rest),
                |b: Option<Seq<u64>>| ResponseView::CheckAvailable(b),
            )
        } else if tag == 3 {
            tagged(
                dec_option(|s: Seq<u8>| dec_entries(s), rest),
                |e: Option<Seq<DirEntryView>>| ResponseView::LoadDir(e),
            )
        } else if tag == 4 {
            Some((ResponseView::UpdateDir, rest))
        } else if tag == 5 {
            tagged(
                dec_option(|s: Seq<u8>| dec_attr(s), rest),
                |a: Option<FileAttr>| ResponseView::GetAttr(a),
            )
        } else if tag == 6 {
            Some((ResponseView::PushAttr, rest))
        } else if tag == 7 {
            Some((ResponseView::Rename, rest))
        } else if tag == 8 {
            Some((ResponseView::Remove, rest))
        } else {
            None
        },
    }
}

/// Reading gives back the response that was written, in front of whatever
/// follows.
pub proof fn lemma_dec_response(response: ResponseView, rest: Seq<u8>)
    requires
        fits_response(response),
    ensures
        dec_response(enc_response(response) + rest) == Some((response, rest)),
{
    match response {
        ResponseView::TurnOff => {
            lemma_dec_u8(0, rest);
        },
        ResponseView::Invalidate => {
            lemma_dec_u8(1, rest);
        },
        ResponseView::CheckAvailable(None) => {
            lemma_concat_assoc(seq![2u8], seq![0u8], rest);
            lemma_dec_u8(2, seq![0u8] + rest);
            lemma_dec_u8(0, rest);
        },
        ResponseView::CheckAvailable(Some(blocks)) => {
            lemma_concat_assoc(seq![2u8], seq![1u8] + enc_blocks(blocks), rest);
            lemma_concat_assoc(seq![1u8], enc_blocks(blocks), rest);
            lemma_dec_u8(2, seq![1u8] + (enc_blocks(blocks) + rest));
            lemma_dec_u8(1, enc_blocks(blocks) + rest);
            lemma_dec_blocks(blocks, rest);
        },
        ResponseView::LoadDir(None) => {
            lemma_concat_assoc(seq![3u8], seq![0u8], rest);
            lemma_dec_u8(3, seq![0u8] + rest);
            lemma_dec_u8(0, rest);
        },
        ResponseView::LoadDir(Some(entries)) => {
            lemma_concat_assoc(seq![3u8], seq![1u8] + enc_entries(entries), rest);
            lemma_concat_assoc(seq![1u8], enc_entries(entries), rest);
            lemma_dec_u8(3, seq![1u8] + (enc_entries(entries) + rest));
            lemma_dec_u8(1, enc_entries(entries) + rest);
            lemma_dec_entries(entries, rest);
        },
        ResponseView::UpdateDir => {
            lemma_dec_u8(4, rest);
        },
        ResponseView::GetAttr(None) => {
            lemma_concat_assoc(seq![5u8], seq![0u8], rest);
            lemma_dec_u8(5, seq![0u8] + rest);
            lemma_dec_u8(0, rest);
        },
        ResponseView::GetAttr(Some(attr)) => {
            lemma_concat_assoc(seq![5u8], seq![1u8] + enc_attr(attr), rest);
            lemma_concat_assoc(seq![1u8], enc_attr(attr), rest);
            lemma_dec_u8(5, seq![1u8] + (enc_attr(attr) + rest));
            lemma_dec_u8(1, enc_attr(attr) + rest);
            lemma_dec_attr(attr, rest);
        },
        ResponseView::PushAttr => {
            lemma_dec_u8(6, rest);
        },
        ResponseView::Rename => {
            lemma_dec_u8(7, rest);
        },
        ResponseView::Remove => {
            lemma_dec_u8(8, rest);
        },
    }
}

/// Decoding the payload of a response gives the response back.
pub proof fn lemma_response_round_trip(response: ResponseView)
    requires
        fits_response(response),
    ensures
        whole(dec_response(enc_response(response))) == Some(response),
{
    lemma_dec_response(response, Seq::empty());
    assert(enc_response(response) + Seq::<u8>::empty() =~= enc_response(response));
}

/// The payload that carries `response`.
pub fn serialize_response(response: &Response) -> (payload: Vec<u8>)
    ensures
        payload@ == enc_response(response@),
{
    let mut payload: Vec<u8> = Vec::new();
    let out = &mut payload;
    match response {
        Response::TurnOff => {
            out.push(0);
        },
        Response::Invalidate => {
            out.push(1);
        },
        Response::CheckAvailable(None) => {
            out.push(2);
            out.push(0);
        },
        Response::CheckAvailable(Some(blocks)) => {
            out.push(2);
            out.push(1);
            put_blocks(out, blocks);
        },
        Response::LoadDir(None) => {
            out.push(3);
            out.push(0);
        },
        Response::LoadDir(Some(entries)) => {
            out.push(3);
            out.push(1);
            put_entries(out, entries);
        },
        Response::UpdateDir => {
            out.push(4);
        },
        Response::GetAttr(None) => {
            out.push(5);
            out.push(0);
        },
        Response::GetAttr(Some(attr)) => {
            out.push(5);
            out.push(1);
            put_attr(out, attr);
        },
        Response::PushAttr => {
            out.push(6);
        },
        Response::Rename => {
            out.push(7);
        },
        Response::Remove => {
            out.push(8);
        },
    }
    assert(payload@ =~= enc_response(response@));
    payload
}

/// Reads a response.
pub fn get_response(input: &mut ArgumentIterator) -> (r: Option<Response>)
    ensures
        final(input).buffer() == old(input).buffer(),
        match r {
            Some(v) => dec_response(old(input).remaining()) == Some(
                (v@, final(input).remaining()),
            ),
            None => dec_response(old(input).remaining()) is None,
        },
{
    let tag = match get_u8(input) {
        Some(tag) => tag,
        None => return None,
    };
    match tag {
        0 => Some(Response::TurnOff),
        1 => Some(Response::Invalidate),
        2 => match get_u8(input) {
            Some(0) => Some(Response::CheckAvailable(None)),
            Some(1) => match get_blocks(input) {
                Some(blocks) => Some(Response::CheckAvailable(Some(blocks))),
                None => None,
            },
            _ => None,
        },
        3 => match get_u8(input) {
            Some(0) => Some(Response::LoadDir(None)),
            Some(1) => match get_entries(input) {
                Some(entries) => Some(Response::LoadDir(Some(entries))),
                None => None,
            },
            _ => None,
        },
        4 => Some(Response::UpdateDir),
        5 => match get_u8(input) {
            Some(0) => Some(Response::GetAttr(None)),
            Some(1) => match get_attr(input) {
                Some(attr) => Some(Response::GetAttr(Some(attr))),
                None => None,
            },
            _ => None,
        },
        6 => Some(Response::PushAttr),
        7 => Some(Response::Rename),
        8 => Some(Response::Remove),
        _ => None,
    }
}

/// Decodes the payload of a response. Returns `None` where the payload
/// is not that of a response, or where bytes follow the response.
pub fn deserialize_response(payload: &[u8]) -> (r: Option<Response>)
    ensures
        match r {
            Some(response) => whole(dec_response(payload@)) == Some(response@),
            None => whole(dec_response(payload@)) is None,
        },
{
    let mut input = ArgumentIterator::new(payload);
    assert(input.remaining() =~= payload@);
    match get_response(&mut input) {
        Some(response) => if input.len() == 0 {
            Some(response)
        } else {
            None
        },
        None => None,
    }
}


} // verus!
