//! The finalized, immutable commit value and its canonical text rendering.

use vstd::prelude::*;
use vstd::string::StringExecFns;

use crate::commit::builder::CommitBuilder;
use crate::commit::cmt_type::CommitType;
use crate::commit::strategy::CaseStrategy;

verus! {

/// A finished commit message, produced only by a successful
/// [`CommitBuilder::build`].
#[derive(Debug, Clone, PartialEq, Eq)]
pub struct Commit {
    pub commit_type: CommitType,
    pub scope: Option<String>,
    pub subject: String,
    pub description: Option<String>,
    pub is_breaking_change: bool,
}

/// The header of a commit: `type(scope)!: subject`.
pub open spec fn header_spec(c: Commit) -> Seq<char> {
    c.commit_type.name@ + (match c.scope {
        Some(s) => "("@ + s@ + ")"@,
        None => Seq::<char>::empty(),
    }) + (if c.is_breaking_change {
        "!"@
    } else {
        Seq::<char>::empty()
    }) + ": "@ + c.subject@
}

/// The body of a commit: a blank line and the description, exactly when
/// one is present and non-empty.
pub open spec fn body_spec(c: Commit) -> Seq<char> {
    match c.description {
        Some(d) => if d@.len() > 0 {
            "\n\n"@ + d@
        } else {
            Seq::<char>::empty()
        },
        None => Seq::<char>::empty(),
    }
}

/// The canonical text of a commit: the header followed by the body.
pub open spec fn render_spec(c: Commit) -> Seq<char> {
    header_spec(c) + body_spec(c)
}

impl Commit {
    /// Creates a builder that can be used to build a new commit under the
    /// given case strategy.
    pub fn builder(strategy: CaseStrategy) -> (r: CommitBuilder)
        ensures
            r == (CommitBuilder {
                commit_type: None,
                scope: None,
                subject: None,
                description: None,
                is_breaking_change: false,
                strategy,
            }),
    {
        let mut builder = CommitBuilder::default();
        builder.strategy = strategy;
        builder
    }

    /// Renders the canonical text: the literal payload handed to the
    /// version-control tool.
    pub fn render(&self) -> (r: String)
        ensures
            r@ == render_spec(*self),
    {
        let mut out = self.commit_type.name.clone();
        match &self.scope {
            Some(scope) => {
                out.append("(");
                out.append(scope.as_str());
                out.append(")");
            },
            None => {},
        }
        if self.is_breaking_change {
            out.append("!");
        }
        out.append(": ");
        out.append(self.subject.as_str());
        match &self.description {
            Some(description) => {
                if !description.as_str().is_empty() {
                    out.append("\n\n");
                    out.append(description.as_str());
                }
            },
            None => {},
        }
        proof {
            assert(out@ =~= render_spec(*self));
        }
        out
    }
}

/// For every valid combination of fields — a commit type, an optional
/// scope, a subject and the breaking flag, kept within the budget by a
/// well-formed builder — the built commit renders to `type(scope)!: subject`
/// followed by the non-empty description, and the header occupies exactly
/// the prefix length, the two characters of the `: ` separator, and the
/// subject length, which stays within the budget.
pub proof fn lemma_built_commit_renders(b: CommitBuilder, c: Commit)
    requires
        b.wf(),
        b.commit_type matches Some(t) && c.commit_type == t,
        b.subject matches Some(s) && c.subject == s,
        c.scope == b.scope,
        c.description == b.description,
        c.is_breaking_change == b.is_breaking_change,
    ensures
        render_spec(c) == header_spec(c) + body_spec(c),
        header_spec(c).len() == b.spec_prefix_len() + 2 + b.spec_message_len(),
        header_spec(c).len() <= crate::commit::constants::MAX_MESSAGE_LEN as int + 2,
{
    reveal_strlit("(");
    reveal_strlit(")");
    reveal_strlit("!");
    reveal_strlit(": ");
}

} // verus!
