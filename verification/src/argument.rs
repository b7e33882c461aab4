//! A forward-only cursor over the arguments of a request.
//!
//! The cursor hands out fixed-size records, names that end in a NUL byte and
//! the rest of the buffer. Names and the rest are views into the buffer that
//! the cursor was made over: nothing is copied. A call that finds too little
//! data returns `None` and leaves the cursor where it was.

use crate::abi::{Abi, Record};
use vstd::prelude::*;
use vstd::slice::slice_subrange;

verus! {

/// True if `i` is the index of the first NUL byte of `s`.
pub open spec fn is_first_nul(s: Seq<u8>, i: int) -> bool {
    &&& 0 <= i < s.len()
    &&& s[i] == 0
    &&& forall|j: int| 0 <= j < i ==> s[j] != 0
}

/// True if `s` holds a NUL byte, so that a name can be read from it.
pub open spec fn has_nul(s: Seq<u8>) -> bool {
    exists|i: int| 0 <= i < s.len() && s[i] == 0
}

/// Index of the first NUL byte of `s`; meaningful where `has_nul(s)`.
pub open spec fn nul_index(s: Seq<u8>) -> int {
    choose|i: int| is_first_nul(s, i)
}

/// The name at the front of `s`: the bytes before the first NUL.
pub open spec fn first_name(s: Seq<u8>) -> Seq<u8> {
    s.take(nul_index(s))
}

/// What follows the name at the front of `s` and the NUL that ends it.
pub open spec fn after_name(s: Seq<u8>) -> Seq<u8> {
    s.skip(nul_index(s) + 1)
}

/// A sequence has at most one first NUL byte, and `nul_index` names it.
pub proof fn lemma_first_nul_unique(s: Seq<u8>, i: int)
    requires
        is_first_nul(s, i),
    ensures
        has_nul(s),
        nul_index(s) == i,
{
    let k = nul_index(s);
    assert(is_first_nul(s, k));
    if k < i {
        assert(s[k] != 0);
    } else if i < k {
        assert(s[i] != 0);
    }
}

/// A sequence that holds a NUL byte has a first one.
pub proof fn lemma_has_nul_gives_first(s: Seq<u8>)
    requires
        has_nul(s),
    ensures
        is_first_nul(s, nul_index(s)),
{
    let w = choose|i: int| 0 <= i < s.len() && s[i] == 0;
    lemma_first_nul_below(s, w);
}

/// Below every NUL byte of a sequence lies its first NUL byte.
proof fn lemma_first_nul_below(s: Seq<u8>, w: int)
    requires
        0 <= w < s.len(),
        s[w] == 0,
    ensures
        is_first_nul(s, nul_index(s)),
        nul_index(s) <= w,
    decreases w,
{
    if exists|j: int| 0 <= j < w && s[j] == 0 {
        let j = choose|j: int| 0 <= j < w && s[j] == 0;
        lemma_first_nul_below(s, j);
    } else {
        assert(is_first_nul(s, w));
        lemma_first_nul_unique(s, w);
    }
}

/// Cursor over the bytes of a buffer, moving from the front to the end.
pub struct ArgumentIterator<'a> {
    data: &'a [u8],
    pos: usize,
}

impl<'a> ArgumentIterator<'a> {
    #[verifier::type_invariant]
    spec fn within_buffer(self) -> bool {
        self.pos <= self.data@.len()
    }

    /// The whole buffer that the cursor walks over.
    pub closed spec fn buffer(self) -> Seq<u8> {
        self.data@
    }

    /// Number of bytes of the buffer that the cursor has passed.
    pub closed spec fn position(self) -> nat {
        self.pos as nat
    }

    /// The bytes that the cursor has not passed yet.
    pub open spec fn remaining(self) -> Seq<u8> {
        self.buffer().skip(self.position() as int)
    }

    /// A cursor at the front of `data`.
    pub fn new(data: &'a [u8]) -> (it: ArgumentIterator<'a>)
        ensures
            it.buffer() == data@,
            it.position() == 0,
    {
        ArgumentIterator { data, pos: 0 }
    }

    /// Number of bytes that are left.
    pub fn len(&self) -> (n: usize)
        ensures
            self.position() <= self.buffer().len(),
            n == self.remaining().len(),
    {
        proof {
            use_type_invariant(self);
        }
        self.data.len() - self.pos
    }

    /// Hands out all the bytes that are left and moves to the end.
    pub fn fetch_all(&mut self) -> (rest: &'a [u8])
        ensures
            rest@ == old(self).remaining(),
            old(self).position() <= old(self).buffer().len(),
            final(self).buffer() == old(self).buffer(),
            final(self).position() == old(self).buffer().len(),
    {
        proof {
            use_type_invariant(&*self);
        }
        let rest = slice_subrange(self.data, self.pos, self.data.len());
        self.pos = self.data.len();
        rest
    }

    /// Reads one record and moves past it, or returns `None` without moving
    /// if fewer bytes are left than the record takes.
    pub fn fetch<T: Record>(&mut self, abi: Abi) -> (r: Option<T>)
        ensures
            final(self).buffer() == old(self).buffer(),
            old(self).position() <= old(self).buffer().len(),
            match r {
                Some(record) => {
                    &&& T::wire_size(abi) <= old(self).remaining().len()
                    &&& record == T::from_wire(old(self).remaining(), abi)
                    &&& final(self).position() == old(self).position() + T::wire_size(abi)
                    &&& final(self).remaining() == old(self).remaining().skip(
                        T::wire_size(abi) as int,
                    )
                },
                None => {
                    &&& T::wire_size(abi) > old(self).remaining().len()
                    &&& final(self).position() == old(self).position()
                },
            },
    {
        proof {
            use_type_invariant(&*self);
        }
        let size = T::size(abi);
        if self.data.len() - self.pos < size {
            return None;
        }
        let record = T::read(self.data, self.pos, abi);
        assert(self.data@.skip(self.pos + size) =~= self.data@.skip(self.pos as int).skip(
            size as int,
        ));
        self.pos = self.pos + size;
        Some(record)
    }

    /// Hands out the next `n` bytes and moves past them, or returns `None`
    /// without moving if fewer bytes are left.
    pub fn fetch_bytes(&mut self, n: usize) -> (r: Option<&'a [u8]>)
        ensures
            final(self).buffer() == old(self).buffer(),
            old(self).position() <= old(self).buffer().len(),
            match r {
                Some(bytes) => {
                    &&& n <= old(self).remaining().len()
                    &&& bytes@ == old(self).remaining().take(n as int)
                    &&& final(self).position() == old(self).position() + n
                    &&& final(self).remaining() == old(self).remaining().skip(n as int)
                },
                None => {
                    &&& n > old(self).remaining().len()
                    &&& final(self).position() == old(self).position()
                },
            },
    {
        proof {
            use_type_invariant(&*self);
        }
        if self.data.len() - self.pos < n {
            return None;
        }
        let bytes = slice_subrange(self.data, self.pos, self.pos + n);
        assert(bytes@ =~= self.data@.skip(self.pos as int).take(n as int));
        assert(self.data@.skip(self.pos + n) =~= self.data@.skip(self.pos as int).skip(n as int));
        self.pos = self.pos + n;
        Some(bytes)
    }

    /// Reads one name, the bytes up to the next NUL, and moves past that
    /// NUL, or returns `None` without moving if no NUL is left.
    pub fn fetch_str(&mut self) -> (r: Option<&'a [u8]>)
        ensures
            final(self).buffer() == old(self).buffer(),
            old(self).position() <= old(self).buffer().len(),
            match r {
                Some(name) => {
                    &&& has_nul(old(self).remaining())
                    &&& name@ == first_name(old(self).remaining())
                    &&& name@.len() == nul_index(old(self).remaining())
                    &&& final(self).position() == old(self).position() + name@.len() + 1
                    &&& final(self).remaining() == after_name(old(self).remaining())
                },
                None => {
                    &&& !has_nul(old(self).remaining())
                    &&& final(self).position() == old(self).position()
                },
            },
    {
        proof {
            use_type_invariant(&*self);
        }
        let start = self.pos;
        let end = self.data.len();
        let ghost rest = self.data@.skip(start as int);
        let mut i: usize = start;
        while i < end && self.data[i] != 0
            invariant
                start <= i <= end,
                end == self.data@.len(),
                self.pos == start,
                rest == self.data@.skip(start as int),
                forall|j: int| 0 <= j < i - start ==> rest[j] != 0,
            decreases end - i,
        {
            i = i + 1;
        }
        if i == end {
            return None;
        }
        proof {
            assert(rest[i - start] == self.data@[i as int]);
            assert(is_first_nul(rest, i - start));
            lemma_first_nul_unique(rest, i - start);
        }
        let name = slice_subrange(self.data, start, i);
        self.pos = i + 1;
        assert(name@ =~= first_name(rest));
        assert(self.data@.skip(i + 1) =~= after_name(rest));
        Some(name)
    }
}

} // verus!
