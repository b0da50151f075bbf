//! The version-control command boundary: the errors it can report, the
//! interface a host implements over its shell, and the verified parsing of
//! the status output.

use vstd::prelude::*;
use vstd::string::StrSliceExecFns;
use vstd::string::StringExecFns;

use crate::config::config::Config;
use crate::git::commit::Commit;
use crate::git::item::GitItem;
use crate::git::item::parse_matches;
use crate::util::strutil::first_ix;
use crate::util::strutil::lemma_first_ix;
use crate::util::strutil::find_char;

verus! {

/// A failure reported around a version-control command.
#[derive(Debug, Clone, PartialEq, Eq)]
pub enum GitError {
    /// The tool itself reported an error, quoted as it came.
    GitError(String),
    NoGitRepository,
    NoRemote,
    NoUpstream,
    /// The tool's output could not be read.
    ParseError(String),
    /// The command could not be run.
    ExecError(String),
}

/// The human-readable message of each failure.
pub open spec fn git_error_message(e: GitError) -> Seq<char> {
    match e {
        GitError::GitError(msg) => msg@,
        GitError::NoGitRepository => "No git repository found"@,
        GitError::NoRemote => "No remote found"@,
        GitError::NoUpstream => "No upstream found"@,
        GitError::ParseError(msg) => "Error parsing git output: "@ + msg@,
        GitError::ExecError(msg) => "Error executing git command: "@ + msg@,
    }
}

impl GitError {
    /// Renders the human-readable message for this failure.
    pub fn message(&self) -> (r: String)
        ensures
            r@ == git_error_message(*self),
    {
        match self {
            GitError::GitError(msg) => msg.clone(),
            GitError::NoGitRepository => String::from_str("No git repository found"),
            GitError::NoRemote => String::from_str("No remote found"),
            GitError::NoUpstream => String::from_str("No upstream found"),
            GitError::ParseError(msg) => {
                let mut out = String::from_str("Error parsing git output: ");
                out.append(msg.as_str());
                out
            },
            GitError::ExecError(msg) => {
                let mut out = String::from_str("Error executing git command: ");
                out.append(msg.as_str());
                out
            },
        }
    }
}

/// The version-control commands the flow needs.  A host implements this
/// over its shell; the library only parses what comes back.
pub trait Git {
    /// Gets all the items in the current repository's status output.
    fn get_statuses_of_items(&self) -> Result<Vec<GitItem>, GitError>;

    /// Gets the status of the item at the given path.
    fn get_item_status(&self, path: &str) -> Result<GitItem, GitError>;

    /// Stages the given item and refreshes its status.
    fn add(&self, item: &mut GitItem) -> Result<String, GitError>;

    /// Unstages the given item and refreshes its status.
    fn reset(&self, item: &mut GitItem) -> Result<String, GitError>;

    /// Commits with the rendered text of the given commit.
    fn commit<'a, T: Config<'a>>(&self, item: &Commit<'a, T>) -> Result<String, GitError>;

    /// Pushes the current branch to the remote.
    fn push(&self) -> Result<String, GitError>;

    /// Pushes the current branch, creating the upstream if it is missing.
    fn push_with_upstream(&self) -> Result<String, GitError>;

    /// Gets the current branch name.
    fn get_current_branch(&self) -> Result<String, GitError>;

    /// Initialises a repository.
    fn init(&self) -> Result<String, GitError>;
}

/// A line of output with a trailing carriage return removed.
pub open spec fn strip_cr(line: Seq<char>) -> Seq<char> {
    if line.len() > 0 && line.last() == '\r' {
        line.drop_last()
    } else {
        line
    }
}

/// The lines of a piece of output: split at every line feed, each line
/// with a trailing carriage return removed, and no line for text that
/// ends at the last line feed.
pub open spec fn lines_spec(s: Seq<char>) -> Seq<Seq<char>>
    decreases s.len(),
{
    if s.len() == 0 {
        Seq::<Seq<char>>::empty()
    } else {
        let i = first_ix(s, '\n');
        if 0 <= i && i < s.len() {
            seq![strip_cr(s.take(i))] + lines_spec(s.skip(i + 1))
        } else {
            seq![strip_cr(s)]
        }
    }
}

/// The first position of a status line too short to parse, or the number
/// of lines when every line parses.
pub open spec fn bad_line_ix(ls: Seq<Seq<char>>) -> int
    decreases ls.len(),
{
    if ls.len() == 0 {
        0
    } else if ls[0].len() < 3 {
        0
    } else {
        1 + bad_line_ix(ls.drop_first())
    }
}

/// `bad_line_ix` stays within the line count.
proof fn lemma_bad_line_ix_bounds(ls: Seq<Seq<char>>)
    ensures
        0 <= bad_line_ix(ls) <= ls.len(),
    decreases ls.len(),
{
    if ls.len() > 0 && ls[0].len() >= 3 {
        lemma_bad_line_ix_bounds(ls.drop_first());
    }
}

/// Parses the whole status output: one item per line.  Fails on the
/// first line too short to be a status line, quoting it.
pub fn parse_status_output(output: &str) -> (r: Result<Vec<GitItem>, GitError>)
    ensures
        ({
            let ls = lines_spec(output@);
            &&& (r is Ok <==> bad_line_ix(ls) == ls.len())
            &&& (r matches Ok(v) ==> v@.len() == ls.len() && (forall|l: int|
                0 <= l < ls.len() ==> parse_matches(#[trigger] v@[l], ls[l])))
            &&& (r matches Err(e) ==> e matches GitError::GitError(m) && m@ == "Unknown git item: "@
                + ls[bad_line_ix(ls)])
        }),
    decreases output@.len(),
{
    let n = output.unicode_len();
    if n == 0 {
        return Ok(Vec::new());
    }
    let e = find_char(output, 0, '\n');
    proof {
        lemma_first_ix(output@, '\n', e as int);
    }
    let line_end = if e > 0 && output.get_char(e - 1) == '\r' {
        e - 1
    } else {
        e
    };
    let line = output.substring_char(0, line_end);
    proof {
        if e == n {
            assert(output@.take(e as int) =~= output@);
        }
        assert(line@ =~= strip_cr(output@.take(e as int)));
    }
    let item = match GitItem::parse(line) {
        Some(item) => item,
        None => {
            let mut msg = String::from_str("Unknown git item: ");
            msg.append(line);
            proof {
                let ls = lines_spec(output@);
                assert(ls[0] == line@);
                assert(bad_line_ix(ls) == 0);
            }
            return Err(GitError::GitError(msg));
        },
    };
    if e == n {
        let mut items: Vec<GitItem> = Vec::new();
        items.push(item);
        proof {
            let ls = lines_spec(output@);
            assert(ls =~~= seq![line@]);
            assert(ls.drop_first() =~~= Seq::<Seq<char>>::empty());
            assert(ls[0].len() >= 3);
            assert(bad_line_ix(ls.drop_first()) == 0);
            assert(bad_line_ix(ls) == 1);
        }
        return Ok(items);
    }
    let rest = output.substring_char(e + 1, n);
    proof {
        assert(rest@ =~= output@.skip(e as int + 1));
    }
    match parse_status_output(rest) {
        Ok(mut tail) => {
            let ghost tail_before = tail@;
            tail.insert(0, item);
            proof {
                let ls = lines_spec(output@);
                assert(ls =~~= seq![line@] + lines_spec(output@.skip(e as int + 1)));
                assert(ls.drop_first() =~~= lines_spec(output@.skip(e as int + 1)));
                assert(ls[0].len() >= 3);
                assert(bad_line_ix(ls) == 1 + bad_line_ix(ls.drop_first()));
                assert forall|l: int| 0 <= l < ls.len() implies parse_matches(
                    #[trigger] tail@[l],
                    ls[l],
                ) by {
                    if l > 0 {
                        assert(tail@[l] == tail_before[l - 1]);
                        assert(ls[l] == lines_spec(output@.skip(e as int + 1))[l - 1]);
                    }
                }
            }
            Ok(tail)
        },
        Err(err) => {
            proof {
                let ls = lines_spec(output@);
                assert(ls =~~= seq![line@] + lines_spec(output@.skip(e as int + 1)));
                assert(ls.drop_first() =~~= lines_spec(output@.skip(e as int + 1)));
                assert(ls[0].len() >= 3);
                assert(bad_line_ix(ls) == 1 + bad_line_ix(ls.drop_first()));
                lemma_bad_line_ix_bounds(ls.drop_first());
                assert(ls[bad_line_ix(ls)] == ls.drop_first()[bad_line_ix(ls.drop_first())]);
            }
            Err(err)
        },
    }
}

} // verus!
