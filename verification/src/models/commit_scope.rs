//! The scope of a commit, stored in a fixed-capacity buffer on the stack
//! or, alternatively, in a heap string.

use vstd::prelude::*;
use vstd::array::array_fill_for_copy_types;
use vstd::slice::slice_subrange;
use vstd::string::StrSliceExecFns;
use vstd::string::StringExecFns;
use vstd::string::StringSliceAdditionalSpecFns;
use vstd::utf8::decode_utf8;
use vstd::utf8::encode_utf8_decode_utf8;
use vstd::utf8::valid_utf8;

use crate::util::strutil::utf8_check;
use crate::util::writer::Writer;

verus! {

broadcast use vstd::array::group_array_axioms;

/// A commit scope in either representation.
pub enum CommitScope<const MAX_LEN: usize> {
    FixedLength(CommitScopeFL<MAX_LEN>),
    VariableLength(CommitScopeVL),
}

/// The error reported when a scope does not fit its fixed buffer.
#[derive(Debug, Clone, PartialEq, Eq)]
pub struct ScopeTooLongError {
    pub len: usize,
    pub max: usize,
}

/// A fixed-capacity commit scope, allocated on the stack.
#[derive(Debug, Clone, PartialEq, Eq, Hash)]
pub struct CommitScopeFL<const MAX_LEN: usize> {
    pub len: usize,
    pub scope: [u8; MAX_LEN],
}

impl<const MAX_LEN: usize> CommitScopeFL<MAX_LEN> {
    /// The bytes of the scope.
    pub open spec fn view_bytes(&self) -> Seq<u8> {
        self.scope@.take(self.len as int)
    }

    /// The representation invariant: the length stays within the buffer.
    pub open spec fn wf(&self) -> bool {
        self.len <= MAX_LEN
    }

    /// Creates a new commit scope holding the given text.
    pub fn new(scope: &str) -> (r: Result<Self, ScopeTooLongError>)
        ensures
            scope.spec_bytes().len() <= MAX_LEN ==> {
                &&& r matches Ok(s)
                &&& s.wf()
                &&& s.view_bytes() == scope.spec_bytes()
            },
            scope.spec_bytes().len() > MAX_LEN ==> (r matches Err(e) && e == (ScopeTooLongError {
                len: scope.spec_bytes().len() as usize,
                max: MAX_LEN,
            })),
    {
        let mut res = Self::default();
        match res.write(scope.as_bytes()) {
            Ok(_) => Ok(res),
            Err(e) => Err(e),
        }
    }

    /// Replaces the stored scope with the given bytes, failing when they
    /// do not fit the buffer.
    pub fn write(&mut self, buf: &[u8]) -> (r: Result<usize, ScopeTooLongError>)
        requires
            old(self).wf(),
        ensures
            final(self).wf(),
            buf@.len() <= MAX_LEN ==> {
                &&& r matches Ok(n) && n == buf@.len()
                &&& final(self).view_bytes() == buf@
            },
            buf@.len() > MAX_LEN ==> {
                &&& *final(self) == *old(self)
                &&& r matches Err(e) && e == (ScopeTooLongError {
                    len: buf@.len() as usize,
                    max: MAX_LEN,
                })
            },
    {
        let n = buf.len();
        if n > MAX_LEN {
            return Err(ScopeTooLongError { len: n, max: MAX_LEN });
        }
        let mut i: usize = 0;
        while i < n
            invariant
                n == buf@.len(),
                0 <= i <= n,
                n <= MAX_LEN,
                self.scope@.len() == MAX_LEN,
                self.len == old(self).len,
                self.scope@.take(i as int) == buf@.take(i as int),
            decreases n - i,
        {
            let b = buf[i];
            self.scope[i] = b;
            proof {
                assert(self.scope@.take(i as int + 1) =~= buf@.take(i as int + 1));
            }
            i = i + 1;
        }
        self.len = n;
        proof {
            assert(buf@.take(n as int) =~= buf@);
        }
        Ok(n)
    }

    /// The length of the scope in bytes.
    pub fn len(&self) -> (r: usize)
        requires
            self.wf(),
        ensures
            r == self.view_bytes().len(),
    {
        proof {
            assert(self.scope@.len() == MAX_LEN);
        }
        self.len
    }

    /// The bytes of the scope.
    pub fn scope(&self) -> (r: &[u8])
        requires
            self.wf(),
        ensures
            r@ == self.view_bytes(),
    {
        slice_subrange(self.scope.as_slice(), 0, self.len)
    }

    /// The scope in parentheses, as shown to the user; the stored bytes
    /// must be valid UTF-8.
    pub fn display_string(&self) -> (r: String)
        requires
            self.wf(),
            valid_utf8(self.view_bytes()),
        ensures
            r@ == "("@ + decode_utf8(self.view_bytes()) + ")"@,
    {
        let bytes = slice_subrange(self.scope.as_slice(), 0, self.len);
        let inner = match utf8_check(bytes) {
            Some(s) => s,
            None => {
                proof {
                    assert(false);
                }
                ""
            },
        };
        proof {
            encode_utf8_decode_utf8(inner@);
        }
        let mut out = String::from_str("(");
        out.append(inner);
        out.append(")");
        proof {
            assert(out@ =~= "("@ + decode_utf8(self.view_bytes()) + ")"@);
        }
        out
    }
}

impl<const MAX_LEN: usize> Default for CommitScopeFL<MAX_LEN> {
    /// An empty scope buffer.
    fn default() -> (r: Self)
        ensures
            r.wf(),
            r.len == 0,
            r.view_bytes() == Seq::<u8>::empty(),
    {
        let scope = array_fill_for_copy_types::<u8, MAX_LEN>(0);
        let r = CommitScopeFL { len: 0, scope };
        proof {
            assert(r.view_bytes() =~= Seq::<u8>::empty());
        }
        r
    }
}

impl<const MAX_LEN: usize> Writer for CommitScopeFL<MAX_LEN> {
    open spec fn inv(&self) -> bool {
        self.wf()
    }

    open spec fn rendered(&self) -> Seq<u8> {
        seq![40u8] + self.view_bytes() + seq![41u8]
    }

    fn write_to(&self, out: &mut Vec<u8>) {
        out.push(40);
        let mut i: usize = 0;
        proof {
            assert(self.scope@.len() == MAX_LEN);
        }
        while i < self.len
            invariant
                self.wf(),
                self.scope@.len() == MAX_LEN,
                0 <= i <= self.len,
                out@ == old(out)@ + seq![40u8] + self.view_bytes().take(i as int),
            decreases self.len - i,
        {
            let b = self.scope[i];
            out.push(b);
            proof {
                assert(self.view_bytes().take(i as int + 1) =~= self.view_bytes().take(i as int)
                    + seq![self.scope@[i as int]]);
            }
            i = i + 1;
        }
        out.push(41);
        proof {
            assert(self.view_bytes().take(self.len as int) =~= self.view_bytes());
            assert(out@ =~= old(out)@ + self.rendered());
        }
    }
}

/// A commit scope held in a heap string.
#[derive(Debug, Clone, PartialEq, Eq, Hash)]
pub struct CommitScopeVL {
    pub scope: String,
}

impl Default for CommitScopeVL {
    /// An empty scope.
    fn default() -> (r: Self)
        ensures
            r.scope@ == Seq::<char>::empty(),
    {
        CommitScopeVL { scope: String::new() }
    }
}

} // verus!
