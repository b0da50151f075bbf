//! A semantic version, its ordering, its rendering and its parser.

use vstd::prelude::*;
use vstd::string::StrSliceExecFns;
use vstd::string::StringExecFns;

use crate::util::strutil::dec_digits;
use crate::util::strutil::find_char;
use crate::util::strutil::first_ix;
use crate::util::strutil::lemma_first_ix;
use crate::util::strutil::usize_to_string;

verus! {

/// A semantic version: major, minor and patch numbers.
#[derive(Default, Debug, Clone, Copy, PartialEq, Eq, Structural)]
pub struct SemVer {
    pub major: usize,
    pub minor: usize,
    pub patch: usize,
}

/// The numeric value of a decimal digit, or `-1` for any other character.
pub open spec fn char_digit(c: char) -> int {
    if c == '0' { 0 }
    else if c == '1' { 1 }
    else if c == '2' { 2 }
    else if c == '3' { 3 }
    else if c == '4' { 4 }
    else if c == '5' { 5 }
    else if c == '6' { 6 }
    else if c == '7' { 7 }
    else if c == '8' { 8 }
    else if c == '9' { 9 }
    else { -1 }
}

/// Whether every character of `s` is a decimal digit.
pub open spec fn all_digits(s: Seq<char>) -> bool {
    forall|i: int| 0 <= i < s.len() ==> char_digit(s[i]) >= 0
}

/// The number that the digit string `s` denotes.
pub open spec fn num_val(s: Seq<char>) -> int
    decreases s.len(),
{
    if s.len() == 0 {
        0
    } else {
        num_val(s.drop_last()) * 10 + char_digit(s.last())
    }
}

/// A digit string denotes a non-negative number.
proof fn lemma_num_val_nonneg(s: Seq<char>)
    requires
        all_digits(s),
    ensures
        num_val(s) >= 0,
    decreases s.len(),
{
    if s.len() > 0 {
        assert(all_digits(s.drop_last()));
        lemma_num_val_nonneg(s.drop_last());
    }
}

/// Extending a digit string never shrinks its value.
proof fn lemma_num_val_prefix(s: Seq<char>, k: int)
    requires
        all_digits(s),
        0 <= k <= s.len(),
    ensures
        num_val(s.take(k)) <= num_val(s),
    decreases s.len() - k,
{
    assert(all_digits(s.take(k)));
    if k == s.len() {
        assert(s.take(k) =~= s);
    } else {
        assert(s.take(k + 1).drop_last() =~= s.take(k));
        assert(s.take(k + 1).last() == s[k]);
        lemma_num_val_nonneg(s.take(k));
        lemma_num_val_prefix(s, k + 1);
    }
}

/// What `usize::from_str` accepts: an optional leading `+`, then at least
/// one digit, denoting a value that fits the type.
pub open spec fn parse_usize_spec(s: Seq<char>) -> Option<usize> {
    let t = if s.len() > 0 && s[0] == '+' {
        s.drop_first()
    } else {
        s
    };
    if t.len() == 0 || !all_digits(t) {
        None
    } else if num_val(t) > usize::MAX {
        None
    } else {
        Some(num_val(t) as usize)
    }
}

/// What [`SemVer::from_str`] yields: the text up to the first dot, the
/// text between the first and second dots, and the text from there to the
/// third dot or the end, each parsed as a number.  Anything after a third
/// dot is ignored.
pub open spec fn spec_from_str(s: Seq<char>) -> Option<SemVer> {
    let i = first_ix(s, '.');
    if i == s.len() {
        None
    } else {
        let rest1 = s.skip(i + 1);
        let j = first_ix(rest1, '.');
        if j == rest1.len() {
            None
        } else {
            let rest2 = rest1.skip(j + 1);
            let k = first_ix(rest2, '.');
            match (parse_usize_spec(s.take(i)), parse_usize_spec(rest1.take(j)), parse_usize_spec(
                rest2.take(k),
            )) {
                (Some(major), Some(minor), Some(patch)) => Some(SemVer { major, minor, patch }),
                _ => None,
            }
        }
    }
}

/// The numeric value of a decimal digit, or `10` for any other character.
fn digit_of(c: char) -> (r: usize)
    ensures
        char_digit(c) >= 0 ==> r == char_digit(c),
        char_digit(c) < 0 ==> r == 10,
{
    if c == '0' { 0 }
    else if c == '1' { 1 }
    else if c == '2' { 2 }
    else if c == '3' { 3 }
    else if c == '4' { 4 }
    else if c == '5' { 5 }
    else if c == '6' { 6 }
    else if c == '7' { 7 }
    else if c == '8' { 8 }
    else if c == '9' { 9 }
    else { 10 }
}

/// Parses a number the way `usize::from_str` does.
fn parse_usize(s: &str) -> (r: Option<usize>)
    ensures
        r == parse_usize_spec(s@),
{
    let n = s.unicode_len();
    let mut start: usize = 0;
    if n > 0 && s.get_char(0) == '+' {
        start = 1;
    }
    let ghost t = if s@.len() > 0 && s@[0] == '+' {
        s@.drop_first()
    } else {
        s@
    };
    if start == n {
        return None;
    }
    let mut acc: usize = 0;
    let mut i: usize = start;
    while i < n
        invariant
            n == s@.len(),
            start <= i <= n,
            start <= 1,
            start == 1 ==> s@.len() > 0 && s@[0] == '+',
            start == 0 ==> !(s@.len() > 0 && s@[0] == '+'),
            t == (if s@.len() > 0 && s@[0] == '+' {
                s@.drop_first()
            } else {
                s@
            }),
            t.len() == n - start,
            forall|m: int| 0 <= m < t.len() ==> t[m] == s@[m + start],
            all_digits(t.take(i - start)),
            acc == num_val(t.take(i - start)),
        decreases n - i,
    {
        let c = s.get_char(i);
        let d = digit_of(c);
        if d > 9 {
            proof {
                assert(char_digit(t[i - start]) < 0);
                assert(!all_digits(t));
            }
            return None;
        }
        proof {
            assert(t.take(i - start + 1).drop_last() =~= t.take(i - start));
            assert(t.take(i - start + 1).last() == t[i - start]);
            assert(all_digits(t.take(i - start + 1)));
        }
        if acc > (usize::MAX - d) / 10 {
            proof {
                assert(num_val(t.take(i - start + 1)) == acc * 10 + char_digit(t[i - start]));
                assert(acc * 10 + d > usize::MAX) by (nonlinear_arith)
                    requires
                        acc > (usize::MAX - d) / 10,
                        d <= 9,
                ;
                if all_digits(t) {
                    lemma_num_val_prefix(t, i - start + 1);
                }
            }
            return None;
        }
        acc = acc * 10 + d;
        i = i + 1;
    }
    proof {
        assert(t.take(n - start) =~= t);
    }
    Some(acc)
}

impl SemVer {
    /// Creates a version from its three numbers.
    pub fn new(major: usize, minor: usize, patch: usize) -> (r: Self)
        ensures
            r == (SemVer { major, minor, patch }),
    {
        Self { major, minor, patch }
    }

    /// Parses a version of the shape `major.minor.patch`; any further
    /// dot-separated part is ignored.
    pub fn from_str(version: &str) -> (r: Option<Self>)
        ensures
            r == spec_from_str(version@),
    {
        let n = version.unicode_len();
        let i = find_char(version, 0, '.');
        proof {
            lemma_first_ix(version@, '.', i as int);
        }
        if i == n {
            return None;
        }
        let j = find_char(version, i + 1, '.');
        proof {
            let rest1 = version@.skip(i as int + 1);
            assert forall|m: int| 0 <= m < j - i - 1 implies rest1[m] != '.' by {
                assert(rest1[m] == version@[m + i + 1]);
            }
            assert(j < n ==> rest1[j - i - 1] == '.');
            lemma_first_ix(rest1, '.', j - i - 1);
        }
        if j == n {
            return None;
        }
        let k = find_char(version, j + 1, '.');
        proof {
            let rest1 = version@.skip(i as int + 1);
            let rest2 = version@.skip(j as int + 1);
            assert(rest1.skip(j - i as int) =~= rest2);
            assert forall|m: int| 0 <= m < k - j - 1 implies rest2[m] != '.' by {
                assert(rest2[m] == version@[m + j + 1]);
            }
            assert(k < n ==> rest2[k - j - 1] == '.');
            lemma_first_ix(rest2, '.', k - j - 1);
        }
        let seg1 = version.substring_char(0, i);
        let seg2 = version.substring_char(i + 1, j);
        let seg3 = version.substring_char(j + 1, k);
        proof {
            assert(seg1@ =~= version@.take(i as int));
            assert(seg2@ =~= version@.skip(i as int + 1).take(j - i - 1));
            assert(seg3@ =~= version@.skip(j as int + 1).take(k - j - 1));
        }
        let major = match parse_usize(seg1) {
            Some(v) => v,
            None => {
                return None;
            },
        };
        let minor = match parse_usize(seg2) {
            Some(v) => v,
            None => {
                return None;
            },
        };
        let patch = match parse_usize(seg3) {
            Some(v) => v,
            None => {
                return None;
            },
        };
        Some(Self { major, minor, patch })
    }

    /// Moves to the next major version: the major number grows by one and
    /// the minor and patch numbers reset.
    pub fn bump_major(&mut self)
        requires
            old(self).major < usize::MAX,
        ensures
            *final(self) == (SemVer { major: (old(self).major + 1) as usize, minor: 0, patch: 0 }),
    {
        self.major = self.major + 1;
        self.minor = 0;
        self.patch = 0;
    }

    /// Moves to the next minor version: the minor number grows by one and
    /// the patch number resets.
    pub fn bump_minor(&mut self)
        requires
            old(self).minor < usize::MAX,
        ensures
            *final(self) == (SemVer {
                major: old(self).major,
                minor: (old(self).minor + 1) as usize,
                patch: 0,
            }),
    {
        self.minor = self.minor + 1;
        self.patch = 0;
    }

    /// Moves to the next patch version: the patch number grows by one.
    pub fn bump_patch(&mut self)
        requires
            old(self).patch < usize::MAX,
        ensures
            *final(self) == (SemVer {
                major: old(self).major,
                minor: old(self).minor,
                patch: (old(self).patch + 1) as usize,
            }),
    {
        self.patch = self.patch + 1;
    }

    /// Renders the version as `major.minor.patch`.
    pub fn render(&self) -> (r: String)
        ensures
            r@ == dec_digits(self.major as nat) + "."@ + dec_digits(self.minor as nat) + "."@
                + dec_digits(self.patch as nat),
    {
        let mut out = usize_to_string(self.major);
        out.append(".");
        let minor_text = usize_to_string(self.minor);
        out.append(minor_text.as_str());
        out.append(".");
        let patch_text = usize_to_string(self.patch);
        out.append(patch_text.as_str());
        proof {
            assert(out@ =~= dec_digits(self.major as nat) + "."@ + dec_digits(self.minor as nat)
                + "."@ + dec_digits(self.patch as nat));
        }
        out
    }
}

impl PartialOrd for SemVer {
    /// Versions order by major, then minor, then patch number.
    fn partial_cmp(&self, other: &Self) -> (r: Option<core::cmp::Ordering>) {
        if self.major < other.major {
            Some(core::cmp::Ordering::Less)
        } else if self.major > other.major {
            Some(core::cmp::Ordering::Greater)
        } else if self.minor < other.minor {
            Some(core::cmp::Ordering::Less)
        } else if self.minor > other.minor {
            Some(core::cmp::Ordering::Greater)
        } else if self.patch < other.patch {
            Some(core::cmp::Ordering::Less)
        } else if self.patch > other.patch {
            Some(core::cmp::Ordering::Greater)
        } else {
            Some(core::cmp::Ordering::Equal)
        }
    }
}

impl vstd::std_specs::cmp::PartialOrdSpecImpl for SemVer {
    open spec fn obeys_partial_cmp_spec() -> bool {
        true
    }

    open spec fn partial_cmp_spec(&self, other: &Self) -> Option<core::cmp::Ordering> {
        if self.major < other.major {
            Some(core::cmp::Ordering::Less)
        } else if self.major > other.major {
            Some(core::cmp::Ordering::Greater)
        } else if self.minor < other.minor {
            Some(core::cmp::Ordering::Less)
        } else if self.minor > other.minor {
            Some(core::cmp::Ordering::Greater)
        } else if self.patch < other.patch {
            Some(core::cmp::Ordering::Less)
        } else if self.patch > other.patch {
            Some(core::cmp::Ordering::Greater)
        } else {
            Some(core::cmp::Ordering::Equal)
        }
    }
}

} // verus!
