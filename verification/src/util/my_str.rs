//! A string that can be either fixed or variable length: short text lives
//! in a stack-allocated byte array, and transparently moves to a heap
//! `String` when it outgrows the array.

use vstd::prelude::*;
use vstd::array::array_fill_for_copy_types;
use vstd::slice::slice_subrange;
use vstd::string::StrSliceExecFns;
use vstd::string::StringExecFns;
use vstd::string::StringSliceAdditionalSpecFns;
use vstd::utf8::decode_utf8;
use vstd::utf8::decode_utf8_encode_utf8;
use vstd::utf8::encode_utf8;
use vstd::utf8::encode_utf8_decode_utf8;
use vstd::utf8::encode_utf8_valid_utf8;
use vstd::utf8::valid_utf8;

use crate::util::strutil::utf8_check;

verus! {

broadcast use vstd::array::group_array_axioms;

/// Encoding a concatenation encodes each part in turn.
proof fn lemma_encode_utf8_concat(a: Seq<char>, b: Seq<char>)
    ensures
        encode_utf8(a + b) == encode_utf8(a) + encode_utf8(b),
    decreases a.len(),
{
    if a.len() == 0 {
        assert(a + b =~= b);
        assert(encode_utf8(a) + encode_utf8(b) =~= encode_utf8(b));
    } else {
        assert((a + b).drop_first() =~= a.drop_first() + b);
        lemma_encode_utf8_concat(a.drop_first(), b);
        assert(encode_utf8(a + b) =~= encode_utf8(a) + encode_utf8(b));
    }
}

/// Valid UTF-8 byte sequences stay valid under concatenation.
proof fn lemma_valid_utf8_concat(a: Seq<u8>, b: Seq<u8>)
    requires
        valid_utf8(a),
        valid_utf8(b),
    ensures
        valid_utf8(a + b),
{
    decode_utf8_encode_utf8(a);
    decode_utf8_encode_utf8(b);
    lemma_encode_utf8_concat(decode_utf8(a), decode_utf8(b));
    encode_utf8_valid_utf8(decode_utf8(a) + decode_utf8(b));
}

/// A failure while writing bytes into a string.
#[derive(Debug, Clone, PartialEq, Eq)]
pub enum StrWriteError {
    /// The bytes are not valid UTF-8.
    InvalidUtf8,
    /// The bytes do not fit the fixed-size buffer.
    CapacityExceeded { requested: usize, available: usize },
}

/// A hybrid of a fixed and a variable length string.
pub trait MyStrTrait: Sized {
    /// The bytes the string currently holds.
    spec fn content(&self) -> Seq<u8>;

    /// The representation invariant.
    spec fn inv(&self) -> bool;

    /// Whether a fresh value can be created from these bytes.
    spec fn accepts(s: Seq<u8>) -> bool;

    /// Creates a string holding the given text.
    fn new(s: &str) -> (r: Self)
        requires
            Self::accepts(s.spec_bytes()),
        ensures
            r.inv(),
            r.content() == s.spec_bytes(),
    ;

    /// The length in bytes.
    fn len(&self) -> (r: usize)
        requires
            self.inv(),
        ensures
            r == self.content().len(),
    ;

    /// Whether the string is empty.
    fn is_empty(&self) -> (r: bool)
        requires
            self.inv(),
        ensures
            r == (self.content().len() == 0),
    ;

    /// Empties the string.
    fn clear(&mut self)
        requires
            old(self).inv(),
        ensures
            final(self).inv(),
            final(self).content() == Seq::<u8>::empty(),
    ;
}

/// A fixed length string, allocated on the stack.
#[derive(Debug, Clone, PartialEq, Eq, Hash)]
pub struct MyStrFixed<const MAX_SIZE: usize> {
    pub offset: usize,
    pub data: [u8; MAX_SIZE],
}

impl<const MAX_SIZE: usize> MyStrFixed<MAX_SIZE> {
    /// The bytes written so far.
    pub open spec fn view_bytes(&self) -> Seq<u8> {
        self.data@.take(self.offset as int)
    }

    /// The representation invariant: the write position stays within the
    /// buffer.
    pub open spec fn wf(&self) -> bool {
        self.offset <= MAX_SIZE
    }

    /// Appends bytes that are known to fit.
    fn append_bytes(&mut self, buf: &[u8])
        requires
            old(self).wf(),
            old(self).offset + buf@.len() <= MAX_SIZE,
        ensures
            final(self).wf(),
            final(self).offset == old(self).offset + buf@.len(),
            final(self).view_bytes() == old(self).view_bytes() + buf@,
    {
        let start = self.offset;
        let n = buf.len();
        let mut i: usize = 0;
        while i < n
            invariant
                n == buf@.len(),
                0 <= i <= n,
                self.offset == start,
                start + n <= MAX_SIZE,
                self.data@.len() == MAX_SIZE,
                self.data@.take(start as int) == old(self).view_bytes(),
                self.data@.subrange(start as int, start as int + i as int) == buf@.take(i as int),
            decreases n - i,
        {
            let b = buf[i];
            self.data[start + i] = b;
            proof {
                assert(self.data@.take(start as int) =~= old(self).view_bytes());
                assert(self.data@.subrange(start as int, start as int + i as int + 1) =~= buf@.take(
                    i as int + 1,
                ));
            }
            i = i + 1;
        }
        self.offset = start + n;
        proof {
            assert(buf@.take(n as int) =~= buf@);
            assert(self.view_bytes() =~= old(self).view_bytes() + buf@);
        }
    }

    /// Writes the bytes at the current position, failing when they do not
    /// fit the remaining space.
    pub fn write(&mut self, buf: &[u8]) -> (r: Result<usize, StrWriteError>)
        requires
            old(self).wf(),
        ensures
            final(self).wf(),
            buf@.len() <= MAX_SIZE - old(self).offset ==> {
                &&& r matches Ok(n) && n == buf@.len()
                &&& final(self).view_bytes() == old(self).view_bytes() + buf@
            },
            buf@.len() > MAX_SIZE - old(self).offset ==> {
                &&& *final(self) == *old(self)
                &&& r matches Err(e) && e == (StrWriteError::CapacityExceeded {
                    requested: buf@.len() as usize,
                    available: (MAX_SIZE - old(self).offset) as usize,
                })
            },
    {
        let remaining = MAX_SIZE - self.offset;
        if buf.len() > remaining {
            return Err(
                StrWriteError::CapacityExceeded { requested: buf.len(), available: remaining },
            );
        }
        self.append_bytes(buf);
        Ok(buf.len())
    }

    /// The stored text, which must be valid UTF-8.
    pub fn as_str(&self) -> (r: &str)
        requires
            self.wf(),
            valid_utf8(self.view_bytes()),
        ensures
            r.spec_bytes() == self.view_bytes(),
    {
        let bytes = slice_subrange(self.data.as_slice(), 0, self.offset);
        match utf8_check(bytes) {
            Some(s) => s,
            None => {
                proof {
                    assert(false);
                }
                ""
            },
        }
    }
}

impl<const MAX_SIZE: usize> Default for MyStrFixed<MAX_SIZE> {
    /// An empty buffer of zeroes.
    fn default() -> (r: Self)
        ensures
            r.wf(),
            r.offset == 0,
            r.view_bytes() == Seq::<u8>::empty(),
            r.data@ == Seq::new(MAX_SIZE as nat, |i: int| 0u8),
    {
        let data = array_fill_for_copy_types::<u8, MAX_SIZE>(0);
        let r = MyStrFixed { offset: 0, data };
        proof {
            assert(r.view_bytes() =~= Seq::<u8>::empty());
        }
        r
    }
}

impl<const MAX_SIZE: usize> MyStrTrait for MyStrFixed<MAX_SIZE> {
    open spec fn content(&self) -> Seq<u8> {
        self.view_bytes()
    }

    open spec fn inv(&self) -> bool {
        self.wf()
    }

    open spec fn accepts(s: Seq<u8>) -> bool {
        s.len() <= MAX_SIZE
    }

    fn new(s: &str) -> (r: Self) {
        let mut this = Self::default();
        this.append_bytes(s.as_bytes());
        this
    }

    fn len(&self) -> (r: usize) {
        self.offset
    }

    fn is_empty(&self) -> (r: bool) {
        self.offset == 0
    }

    fn clear(&mut self) {
        self.offset = 0;
        let data = array_fill_for_copy_types::<u8, MAX_SIZE>(0);
        self.data = data;
        proof {
            assert(self.view_bytes() =~= Seq::<u8>::empty());
        }
    }
}

/// A string that is either fixed or variable length.  Text that outgrows
/// the fixed buffer moves to the heap on the next write.
#[derive(Debug, Clone, PartialEq, Eq)]
pub enum MyStr<const THRESHOLD: usize> {
    Fixed(MyStrFixed<THRESHOLD>),
    Variable(String),
}

impl<const THRESHOLD: usize> MyStr<THRESHOLD> {
    /// The bytes the string holds.
    pub open spec fn view_bytes(&self) -> Seq<u8> {
        match self {
            MyStr::Fixed(f) => f.view_bytes(),
            MyStr::Variable(s) => encode_utf8(s@),
        }
    }

    /// The representation invariant: a fixed buffer stays within bounds
    /// and always holds valid UTF-8.
    pub open spec fn wf(&self) -> bool {
        match self {
            MyStr::Fixed(f) => f.wf() && valid_utf8(f.view_bytes()),
            MyStr::Variable(_) => true,
        }
    }

    /// Writes text at the end of the string.  Bytes that are not valid
    /// UTF-8 are rejected; text that no longer fits a fixed buffer moves
    /// the string to the heap.
    pub fn write(&mut self, buf: &[u8]) -> (r: Result<usize, StrWriteError>)
        requires
            old(self).wf(),
        ensures
            final(self).wf(),
            !valid_utf8(buf@) ==> {
                &&& *final(self) == *old(self)
                &&& r matches Err(e) && e == StrWriteError::InvalidUtf8
            },
            valid_utf8(buf@) ==> {
                &&& r matches Ok(n) && n == buf@.len()
                &&& final(self).view_bytes() == old(self).view_bytes() + buf@
                &&& ((*old(self)) matches MyStr::Variable(_) ==> (*final(self)) is Variable)
                &&& ((*old(self)) matches MyStr::Fixed(f) && f.offset + buf@.len() <= THRESHOLD
                    ==> (*final(self)) is Fixed)
                &&& ((*old(self)) matches MyStr::Fixed(f) && f.offset + buf@.len() > THRESHOLD
                    ==> (*final(self)) is Variable)
            },
    {
        let decoded = match utf8_check(buf) {
            Some(s) => s,
            None => {
                return Err(StrWriteError::InvalidUtf8);
            },
        };
        let n = buf.len();
        match self {
            MyStr::Fixed(f) => {
                if n <= THRESHOLD - f.offset {
                    proof {
                        lemma_valid_utf8_concat(f.view_bytes(), buf@);
                    }
                    f.append_bytes(buf);
                    Ok(n)
                } else {
                    let current = slice_subrange(f.data.as_slice(), 0, f.offset);
                    let stored = match utf8_check(current) {
                        Some(s) => s,
                        None => {
                            proof {
                                assert(false);
                            }
                            ""
                        },
                    };
                    let mut owned = stored.to_owned();
                    owned.append(decoded);
                    proof {
                        lemma_encode_utf8_concat(stored@, decoded@);
                        encode_utf8_decode_utf8(stored@);
                        encode_utf8_decode_utf8(decoded@);
                    }
                    *self = MyStr::Variable(owned);
                    Ok(n)
                }
            },
            MyStr::Variable(s) => {
                proof {
                    lemma_encode_utf8_concat(s@, decoded@);
                }
                s.append(decoded);
                Ok(n)
            },
        }
    }

    /// The stored text.
    pub fn as_str(&self) -> (r: &str)
        requires
            self.wf(),
        ensures
            r.spec_bytes() == self.view_bytes(),
    {
        match self {
            MyStr::Fixed(f) => f.as_str(),
            MyStr::Variable(s) => s.as_str(),
        }
    }
}

impl<const THRESHOLD: usize> Default for MyStr<THRESHOLD> {
    /// An empty fixed-buffer string.
    fn default() -> (r: Self)
        ensures
            r.wf(),
            r is Fixed,
            r.view_bytes() == Seq::<u8>::empty(),
    {
        let r = MyStr::Fixed(MyStrFixed::default());
        proof {
            assert(encode_utf8(Seq::<char>::empty()) =~= Seq::<u8>::empty());
            encode_utf8_valid_utf8(Seq::<char>::empty());
        }
        r
    }
}

impl<const THRESHOLD: usize> MyStrTrait for MyStr<THRESHOLD> {
    open spec fn content(&self) -> Seq<u8> {
        self.view_bytes()
    }

    open spec fn inv(&self) -> bool {
        self.wf()
    }

    open spec fn accepts(s: Seq<u8>) -> bool {
        true
    }

    fn new(s: &str) -> (r: Self) {
        let bytes = s.as_bytes();
        if bytes.len() <= THRESHOLD {
            let mut fixed = MyStrFixed::<THRESHOLD>::default();
            fixed.append_bytes(bytes);
            proof {
                encode_utf8_valid_utf8(s@);
            }
            MyStr::Fixed(fixed)
        } else {
            MyStr::Variable(s.to_owned())
        }
    }

    fn len(&self) -> (r: usize) {
        match self {
            MyStr::Fixed(f) => {
                proof {
                    assert(f.data@.len() == THRESHOLD);
                    assert(f.view_bytes().len() == f.offset as nat);
                    assert(self.content() == f.view_bytes());
                }
                f.offset
            },
            MyStr::Variable(s) => s.as_str().as_bytes().len(),
        }
    }

    fn is_empty(&self) -> (r: bool) {
        match self {
            MyStr::Fixed(f) => {
                proof {
                    assert(f.data@.len() == THRESHOLD);
                    assert(f.view_bytes().len() == f.offset as nat);
                }
                f.offset == 0
            },
            MyStr::Variable(s) => s.as_str().as_bytes().len() == 0,
        }
    }

    fn clear(&mut self) {
        match self {
            MyStr::Fixed(f) => {
                f.clear();
            },
            MyStr::Variable(s) => {
                *s = String::new();
            },
        }
        proof {
            assert(encode_utf8(Seq::<char>::empty()) =~= Seq::<u8>::empty());
            encode_utf8_valid_utf8(Seq::<char>::empty());
            match self {
                MyStr::Variable(s) => {
                    assert(encode_utf8(s@) =~= Seq::<u8>::empty());
                },
                MyStr::Fixed(_) => {},
            }
        }
    }
}

} // verus!
