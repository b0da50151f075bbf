//! A commit type of the catalog, with its terminal rendering.

use vstd::prelude::*;
use vstd::string::StringSliceAdditionalSpecFns;
use vstd::utf8::encode_utf8;

use crate::util::writer::Writer;

verus! {

/// A commit type: a name such as `feat` and the description shown beside
/// it.
#[derive(Debug, Clone, PartialEq, Eq)]
pub struct CommitType {
    name: String,
    description: String,
}

impl CommitType {
    /// The name of the commit type.
    pub closed spec fn spec_name(&self) -> Seq<char> {
        self.name@
    }

    /// The description of the commit type.
    pub closed spec fn spec_description(&self) -> Seq<char> {
        self.description@
    }

    /// Creates a new commit type with the given name and description.
    pub fn new(name: &str, description: &str) -> (r: Self)
        ensures
            r.spec_name() == name@,
            r.spec_description() == description@,
    {
        Self { name: name.to_owned(), description: description.to_owned() }
    }

    /// Gets the name of the commit type.
    pub fn name(&self) -> (r: &str)
        ensures
            r@ == self.spec_name(),
    {
        self.name.as_str()
    }

    /// Gets the description of the commit type.
    pub fn description(&self) -> (r: &str)
        ensures
            r@ == self.spec_description(),
    {
        self.description.as_str()
    }
}

impl Writer for CommitType {
    open spec fn inv(&self) -> bool {
        true
    }

    open spec fn rendered(&self) -> Seq<u8> {
        encode_utf8(self.spec_name()) + seq![58u8, 32u8] + encode_utf8(self.spec_description())
    }

    fn write_to(&self, out: &mut Vec<u8>) {
        let name_bytes = self.name.as_str().as_bytes();
        let mut i: usize = 0;
        let n = name_bytes.len();
        while i < n
            invariant
                n == name_bytes@.len(),
                0 <= i <= n,
                name_bytes@ == encode_utf8(self.spec_name()),
                out@ == old(out)@ + name_bytes@.take(i as int),
            decreases n - i,
        {
            let b = name_bytes[i];
            out.push(b);
            proof {
                assert(name_bytes@.take(i as int + 1) =~= name_bytes@.take(i as int) + seq![
                    name_bytes@[i as int],
                ]);
            }
            i = i + 1;
        }
        out.push(58);
        out.push(32);
        let description_bytes = self.description.as_str().as_bytes();
        let m = description_bytes.len();
        let mut j: usize = 0;
        while j < m
            invariant
                m == description_bytes@.len(),
                0 <= j <= m,
                description_bytes@ == encode_utf8(self.spec_description()),
                out@ == old(out)@ + encode_utf8(self.spec_name()) + seq![58u8, 32u8]
                    + description_bytes@.take(j as int),
            decreases m - j,
        {
            let b = description_bytes[j];
            out.push(b);
            proof {
                assert(description_bytes@.take(j as int + 1) =~= description_bytes@.take(j as int)
                    + seq![description_bytes@[j as int]]);
            }
            j = j + 1;
        }
        proof {
            assert(out@ =~= old(out)@ + self.rendered());
        }
    }
}

} // verus!
