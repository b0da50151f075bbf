//! A working-tree change as shown in the staging view.

use vstd::prelude::*;
use vstd::string::StringExecFns;

use crate::util::strutil::chars_cmp;
use crate::util::strutil::str_cmp;

verus! {

/// Whether a change is staged for commit.
#[derive(Debug, Clone, Copy, PartialEq, Eq, Structural)]
pub enum GitChangeStatus {
    Staged,
    Unstaged,
}

/// The label shown for each status.
pub open spec fn status_label(s: GitChangeStatus) -> Seq<char> {
    match s {
        GitChangeStatus::Staged => "Staged"@,
        GitChangeStatus::Unstaged => "Unstaged"@,
    }
}

impl GitChangeStatus {
    /// A number ordering the statuses: staged changes sort first.
    pub fn get_status_code(&self) -> (r: usize)
        ensures
            self is Staged ==> r == 0,
            self is Unstaged ==> r == 1,
    {
        match self {
            GitChangeStatus::Staged => 0,
            GitChangeStatus::Unstaged => 1,
        }
    }

    /// The label shown for this status.
    pub fn name(&self) -> (r: &'static str)
        ensures
            r@ == status_label(*self),
    {
        match self {
            GitChangeStatus::Staged => "Staged",
            GitChangeStatus::Unstaged => "Unstaged",
        }
    }
}

/// A change of one path, with its staging status.
#[derive(Debug, Clone, PartialEq, Eq)]
pub struct GitChange {
    pub path: String,
    pub status: GitChangeStatus,
}

impl GitChange {
    /// Creates a change from its path and status.
    pub fn new(path: String, status: GitChangeStatus) -> (r: Self)
        ensures
            r == (GitChange { path, status }),
    {
        Self { path, status }
    }

    /// Records the outcome of the external stage action: on success the
    /// change is staged, on failure it keeps its status.
    pub fn apply_stage_result(&mut self, success: bool)
        ensures
            final(self).path == old(self).path,
            final(self).status == (if success {
                GitChangeStatus::Staged
            } else {
                old(self).status
            }),
    {
        if success {
            self.status = GitChangeStatus::Staged;
        }
    }

    /// Records the outcome of the external unstage action: on success the
    /// change is unstaged, on failure it keeps its status.
    pub fn apply_unstage_result(&mut self, success: bool)
        ensures
            final(self).path == old(self).path,
            final(self).status == (if success {
                GitChangeStatus::Unstaged
            } else {
                old(self).status
            }),
    {
        if success {
            self.status = GitChangeStatus::Unstaged;
        }
    }

    /// The line shown for this change: the status label, a separator and
    /// the path.
    pub fn display_string(&self) -> (r: String)
        ensures
            r@ == status_label(self.status) + "\t: "@ + self.path@,
    {
        let mut out = String::new();
        out.append(self.status.name());
        out.append("\t: ");
        out.append(self.path.as_str());
        proof {
            assert(out@ =~= status_label(self.status) + "\t: "@ + self.path@);
        }
        out
    }
}

/// How two changes order in the staging view: staged before unstaged,
/// ties by path.
pub open spec fn change_order(a: GitChange, b: GitChange) -> Option<core::cmp::Ordering> {
    if a.status == b.status {
        Some(chars_cmp(a.path@, b.path@))
    } else if a.status is Staged {
        Some(core::cmp::Ordering::Less)
    } else {
        Some(core::cmp::Ordering::Greater)
    }
}

impl PartialOrd for GitChange {
    /// Changes order staged-first, ties by path.
    fn partial_cmp(&self, other: &Self) -> (r: Option<core::cmp::Ordering>) {
        if self.status == other.status {
            Some(str_cmp(self.path.as_str(), other.path.as_str()))
        } else {
            let a = self.status.get_status_code();
            let b = other.status.get_status_code();
            if a < b {
                Some(core::cmp::Ordering::Less)
            } else {
                Some(core::cmp::Ordering::Greater)
            }
        }
    }
}

impl vstd::std_specs::cmp::PartialOrdSpecImpl for GitChange {
    open spec fn obeys_partial_cmp_spec() -> bool {
        true
    }

    open spec fn partial_cmp_spec(&self, other: &Self) -> Option<core::cmp::Ordering> {
        change_order(*self, *other)
    }
}

/// Queries over a list of changes.
pub trait GitChanges {
    /// The changes held.
    spec fn spec_changes(&self) -> Seq<GitChange>;

    /// Whether any change is staged.
    fn has_staged_changes(&self) -> (r: bool)
        ensures
            r == exists|i: int|
                0 <= i < self.spec_changes().len() && self.spec_changes()[i].status
                    == GitChangeStatus::Staged,
    ;

    /// Whether any change is unstaged.
    fn has_unstaged_changes(&self) -> (r: bool)
        ensures
            r == exists|i: int|
                0 <= i < self.spec_changes().len() && self.spec_changes()[i].status
                    == GitChangeStatus::Unstaged,
    ;

    /// Whether there is any change at all.
    fn has_changes(&self) -> (r: bool)
        ensures
            r == (self.spec_changes().len() > 0),
    ;
}

impl GitChanges for Vec<GitChange> {
    open spec fn spec_changes(&self) -> Seq<GitChange> {
        self@
    }

    fn has_staged_changes(&self) -> (r: bool) {
        let n = self.len();
        let mut i: usize = 0;
        while i < n
            invariant
                n == self@.len(),
                0 <= i <= n,
                forall|j: int| 0 <= j < i ==> self@[j].status != GitChangeStatus::Staged,
            decreases n - i,
        {
            if self[i].status == GitChangeStatus::Staged {
                return true;
            }
            i = i + 1;
        }
        false
    }

    fn has_unstaged_changes(&self) -> (r: bool) {
        let n = self.len();
        let mut i: usize = 0;
        while i < n
            invariant
                n == self@.len(),
                0 <= i <= n,
                forall|j: int| 0 <= j < i ==> self@[j].status != GitChangeStatus::Unstaged,
            decreases n - i,
        {
            if self[i].status == GitChangeStatus::Unstaged {
                return true;
            }
            i = i + 1;
        }
        false
    }

    fn has_changes(&self) -> (r: bool) {
        !self.is_empty()
    }
}

} // verus!
