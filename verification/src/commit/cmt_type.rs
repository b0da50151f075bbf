//! The commit type: one entry of the catalog the user chooses from.

use vstd::prelude::*;
use vstd::string::StrSliceExecFns;
use vstd::string::StringExecFns;

verus! {

/// A commit type from the catalog.
#[derive(Debug, Clone, PartialEq, Eq)]
pub struct CommitType {
    /// The name of the commit type, such as `feat` or `fix`.
    pub name: String,
    /// The description of the commit type, to be shown in the terminal
    /// user interface.
    pub description: Option<String>,
}

/// The catalog line of a commit type: `name: description`, with an empty
/// description when there is none.
pub open spec fn display_spec(t: CommitType) -> Seq<char> {
    t.name@ + ": "@ + (match t.description {
        Some(d) => d@,
        None => Seq::<char>::empty(),
    })
}

impl CommitType {
    /// Creates a commit type from its name and optional description.
    pub fn new(name: &str, description: Option<&str>) -> (r: Self)
        ensures
            r.name@ == name@,
            match description {
                Some(d) => r.description matches Some(rd) && rd@ == d@,
                None => r.description is None,
            },
    {
        let description = match description {
            Some(d) => Some(d.to_owned()),
            None => None,
        };
        Self { name: name.to_owned(), description }
    }

    /// The length of the commit type name, in characters.
    pub fn len(&self) -> (r: usize)
        ensures
            r == self.name@.len(),
    {
        self.name.as_str().unicode_len()
    }

    /// An exact copy, usable in contracts (the derived `Clone` says nothing
    /// about its result).
    pub fn duplicate(&self) -> (r: Self)
        ensures
            r == *self,
    {
        let description = match &self.description {
            Some(d) => Some(d.clone()),
            None => None,
        };
        Self { name: self.name.clone(), description }
    }

    /// The catalog line for this type: `name: description`.
    pub fn display_string(&self) -> (r: String)
        ensures
            r@ == display_spec(*self),
    {
        let mut out = self.name.clone();
        out.append(": ");
        match &self.description {
            Some(d) => {
                out.append(d.as_str());
            },
            None => {},
        }
        proof {
            assert(out@ =~= display_spec(*self));
        }
        out
    }
}

} // verus!
