//! A working-tree item as reported by the version-control status output.

use vstd::prelude::*;
use vstd::string::StrSliceExecFns;

use crate::git::commit::is_blank_char;
use crate::git::commit::is_blank_char_of;

verus! {

/// The status letter of one side (index or working tree) of an item.
#[derive(Debug, PartialEq, Eq, Structural, Hash, Clone, Copy)]
pub enum ItemStatus {
    Unmodified,
    Modified,
    FileTypeChanged,
    Added,
    Deleted,
    Renamed,
    Copied,
    UpdatedButUnmerged,
}

/// The status a letter of the status output denotes; unknown letters are
/// read as unmodified.
pub open spec fn status_of_char(c: char) -> ItemStatus {
    if c == 'U' { ItemStatus::Unmodified }
    else if c == 'M' { ItemStatus::Modified }
    else if c == 'T' { ItemStatus::FileTypeChanged }
    else if c == 'A' { ItemStatus::Added }
    else if c == 'D' { ItemStatus::Deleted }
    else if c == 'R' { ItemStatus::Renamed }
    else if c == 'C' { ItemStatus::Copied }
    else if c == 'X' { ItemStatus::UpdatedButUnmerged }
    else { ItemStatus::Unmodified }
}

/// The letter shown for each status.
pub open spec fn short_name_spec(s: ItemStatus) -> Seq<char> {
    match s {
        ItemStatus::Unmodified => "U"@,
        ItemStatus::Modified => "M"@,
        ItemStatus::FileTypeChanged => "T"@,
        ItemStatus::Added => "A"@,
        ItemStatus::Deleted => "D"@,
        ItemStatus::Renamed => "R"@,
        ItemStatus::Copied => "C"@,
        ItemStatus::UpdatedButUnmerged => "X"@,
    }
}

impl ItemStatus {
    /// The letter shown for this status.
    pub fn short_name(&self) -> (r: &str)
        ensures
            r@ == short_name_spec(*self),
    {
        match self {
            ItemStatus::Unmodified => "U",
            ItemStatus::Modified => "M",
            ItemStatus::FileTypeChanged => "T",
            ItemStatus::Added => "A",
            ItemStatus::Deleted => "D",
            ItemStatus::Renamed => "R",
            ItemStatus::Copied => "C",
            ItemStatus::UpdatedButUnmerged => "X",
        }
    }

    /// Reads a status letter; unknown letters are read as unmodified.
    pub fn from_char(c: char) -> (r: Self)
        ensures
            r == status_of_char(c),
    {
        if c == 'U' { ItemStatus::Unmodified }
        else if c == 'M' { ItemStatus::Modified }
        else if c == 'T' { ItemStatus::FileTypeChanged }
        else if c == 'A' { ItemStatus::Added }
        else if c == 'D' { ItemStatus::Deleted }
        else if c == 'R' { ItemStatus::Renamed }
        else if c == 'C' { ItemStatus::Copied }
        else if c == 'X' { ItemStatus::UpdatedButUnmerged }
        else { ItemStatus::Unmodified }
    }
}

/// The number of blank characters at the start of `s`.
pub open spec fn leading_blanks(s: Seq<char>) -> int
    decreases s.len(),
{
    if s.len() == 0 {
        0
    } else if is_blank_char(s[0]) {
        1 + leading_blanks(s.drop_first())
    } else {
        0
    }
}

/// The number of blank characters at the end of `s`.
pub open spec fn trailing_blanks(s: Seq<char>) -> int
    decreases s.len(),
{
    if s.len() == 0 {
        0
    } else if is_blank_char(s.last()) {
        1 + trailing_blanks(s.drop_last())
    } else {
        0
    }
}

/// `s` with blank characters removed from both ends.
pub open spec fn trim_spec(s: Seq<char>) -> Seq<char> {
    if leading_blanks(s) == s.len() {
        Seq::<char>::empty()
    } else {
        s.subrange(leading_blanks(s), s.len() - trailing_blanks(s))
    }
}

/// `leading_blanks` is the one count with blanks before it and a
/// non-blank (or the end) at it.
proof fn lemma_leading_blanks(s: Seq<char>, d: int)
    requires
        0 <= d <= s.len(),
        forall|m: int| 0 <= m < d ==> is_blank_char(s[m]),
        d < s.len() ==> !is_blank_char(s[d]),
    ensures
        leading_blanks(s) == d,
    decreases s.len(),
{
    if s.len() == 0 {
    } else if is_blank_char(s[0]) {
        assert(d >= 1);
        lemma_leading_blanks(s.drop_first(), d - 1);
    } else {
        assert(d == 0);
    }
}

/// `trailing_blanks` is the one count with blanks after it and a
/// non-blank (or the start) before it.
proof fn lemma_trailing_blanks(s: Seq<char>, d: int)
    requires
        0 <= d <= s.len(),
        forall|m: int| s.len() - d <= m < s.len() ==> is_blank_char(s[m]),
        d < s.len() ==> !is_blank_char(s[s.len() - d - 1]),
    ensures
        trailing_blanks(s) == d,
    decreases s.len(),
{
    if s.len() == 0 {
    } else if is_blank_char(s.last()) {
        assert(d >= 1);
        lemma_trailing_blanks(s.drop_last(), d - 1);
    } else {
        assert(d == 0);
    }
}

/// Returns `text` with blank characters removed from both ends.
pub fn trim(text: &str) -> (r: &str)
    ensures
        r@ == trim_spec(text@),
{
    let n = text.unicode_len();
    let mut i: usize = 0;
    while i < n
        invariant
            n == text@.len(),
            0 <= i <= n,
            forall|m: int| 0 <= m < i ==> is_blank_char(text@[m]),
        ensures
            0 <= i <= n,
            forall|m: int| 0 <= m < i ==> is_blank_char(text@[m]),
            i == n || !is_blank_char(text@[i as int]),
        decreases n - i,
    {
        if !is_blank_char_of(text.get_char(i)) {
            break ;
        }
        i = i + 1;
    }
    if i == n {
        proof {
            lemma_leading_blanks(text@, n as int);
        }
        let r = text.substring_char(n, n);
        proof {
            assert(r@ =~= trim_spec(text@));
        }
        return r;
    }
    proof {
        lemma_leading_blanks(text@, i as int);
    }
    let mut j: usize = n;
    while j > i + 1
        invariant
            n == text@.len(),
            0 <= i < n,
            i + 1 <= j <= n,
            forall|m: int| j <= m < n ==> is_blank_char(text@[m]),
        ensures
            i + 1 <= j <= n,
            forall|m: int| j <= m < n ==> is_blank_char(text@[m]),
            j > i + 1 ==> !is_blank_char(text@[j - 1]),
        decreases j,
    {
        if !is_blank_char_of(text.get_char(j - 1)) {
            break ;
        }
        j = j - 1;
    }
    proof {
        assert(j == i + 1 ==> !is_blank_char(text@[j - 1]));
        lemma_trailing_blanks(text@, n - j as int);
    }
    let r = text.substring_char(i, j);
    proof {
        assert(r@ =~= trim_spec(text@));
    }
    r
}

/// A status line parsed into its parts: both status letters and the
/// path.
#[derive(Debug, PartialEq, Eq, Hash, Clone)]
pub struct GitItem {
    pub x: ItemStatus,
    pub y: ItemStatus,
    pub path: String,
}

/// Whether `item` is what parsing the status line `line` yields.
pub open spec fn parse_matches(item: GitItem, line: Seq<char>) -> bool {
    &&& item.x == status_of_char(line[0])
    &&& item.y == status_of_char(line[1])
    &&& item.path@ == trim_spec(line.skip(3))
}

impl GitItem {
    /// Creates an item from its parts.
    pub fn new(x: ItemStatus, y: ItemStatus, path: String) -> (r: Self)
        ensures
            r == (GitItem { x, y, path }),
    {
        Self { x, y, path }
    }

    /// Whether the index side of the item holds a change.
    pub fn is_staged(&self) -> (r: bool)
        ensures
            r == (self.x != ItemStatus::Unmodified),
    {
        self.x != ItemStatus::Unmodified
    }

    /// Parses one line of the status output: two status letters, a
    /// separator, and the path.  Lines shorter than a status prefix are
    /// rejected.
    pub fn parse(line: &str) -> (r: Option<Self>)
        ensures
            line@.len() < 3 ==> r is None,
            line@.len() >= 3 ==> (r matches Some(item) && parse_matches(item, line@)),
    {
        let n = line.unicode_len();
        if n < 3 {
            return None;
        }
        let x = ItemStatus::from_char(line.get_char(0));
        let y = ItemStatus::from_char(line.get_char(1));
        let rest = line.substring_char(3, n);
        let path = trim(rest);
        proof {
            assert(rest@ =~= line@.skip(3));
        }
        Some(Self::new(x, y, path.to_owned()))
    }

    /// Copies the status letters of another item, keeping the path.
    pub fn copy_status_from(&mut self, other: &Self)
        ensures
            final(self).x == other.x,
            final(self).y == other.y,
            final(self).path == old(self).path,
    {
        self.x = other.x;
        self.y = other.y;
    }
}

} // verus!
