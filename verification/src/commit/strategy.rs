//! The case convention that scope and subject text must follow, together
//! with its mathematical model.
//!
//! Lowering and uppering are the Unicode case conversions of the standard
//! library, reached through trusted wrappers whose results carry the names
//! [`lower_of`] and [`upper_of`]; capitalisation upcases the first
//! character the way the original ASCII marker does and lowers the rest.

use vstd::prelude::*;
use vstd::string::StrSliceExecFns;
use vstd::string::StringExecFns;

use crate::util::strutil::push_char;
use crate::util::strutil::str_eq;

verus! {

/// The case convention applied to scope and subject text.
#[derive(Debug, Clone, Copy, PartialEq, Eq, Structural)]
pub enum CaseStrategy {
    /// Every letter must be lowercase.
    Lowercase,
    /// Every letter must be uppercase.
    Uppercase,
    /// The first character is uppercased and the rest lowered.
    Capitalized,
    /// Any text is accepted unchanged.
    Unchanged,
}

impl Default for CaseStrategy {
    /// The default convention is all-lowercase.
    fn default() -> (r: Self)
        ensures
            r == CaseStrategy::Lowercase,
    {
        CaseStrategy::Lowercase
    }
}

/// What `str::to_lowercase` returns for a text: a function of the
/// characters alone.
pub uninterp spec fn lower_of(s: Seq<char>) -> Seq<char>;

/// What `str::to_uppercase` returns for a text: a function of the
/// characters alone.
pub uninterp spec fn upper_of(s: Seq<char>) -> Seq<char>;

/// Relies on `str::to_lowercase`: the lowercase equivalent of the text,
/// named [`lower_of`].  By the stability of the Unicode case tables the
/// result is itself lowercase, and empty text stays empty.
#[verifier::external_body]
pub(crate) fn lowercase(text: &str) -> (r: String)
    ensures
        r@ == lower_of(text@),
        lower_of(r@) == r@,
        text@.len() == 0 ==> r@.len() == 0,
{
    text.to_lowercase()
}

/// Relies on `str::to_uppercase`: the uppercase equivalent of the text,
/// named [`upper_of`].  By the stability of the Unicode case tables the
/// result is itself uppercase, and empty text stays empty.
#[verifier::external_body]
pub(crate) fn uppercase(text: &str) -> (r: String)
    ensures
        r@ == upper_of(text@),
        upper_of(r@) == r@,
        text@.len() == 0 ==> r@.len() == 0,
{
    text.to_uppercase()
}

/// The lowercase counterpart of a single character: ASCII letters are
/// mapped, any other character is left unchanged.
pub open spec fn lower_char(c: char) -> char {
    if c == 'A' { 'a' }
    else if c == 'B' { 'b' }
    else if c == 'C' { 'c' }
    else if c == 'D' { 'd' }
    else if c == 'E' { 'e' }
    else if c == 'F' { 'f' }
    else if c == 'G' { 'g' }
    else if c == 'H' { 'h' }
    else if c == 'I' { 'i' }
    else if c == 'J' { 'j' }
    else if c == 'K' { 'k' }
    else if c == 'L' { 'l' }
    else if c == 'M' { 'm' }
    else if c == 'N' { 'n' }
    else if c == 'O' { 'o' }
    else if c == 'P' { 'p' }
    else if c == 'Q' { 'q' }
    else if c == 'R' { 'r' }
    else if c == 'S' { 's' }
    else if c == 'T' { 't' }
    else if c == 'U' { 'u' }
    else if c == 'V' { 'v' }
    else if c == 'W' { 'w' }
    else if c == 'X' { 'x' }
    else if c == 'Y' { 'y' }
    else if c == 'Z' { 'z' }
    else { c }
}

/// The uppercase counterpart of a single character: ASCII letters are
/// mapped, any other character is left unchanged.
pub open spec fn upper_char(c: char) -> char {
    if c == 'a' { 'A' }
    else if c == 'b' { 'B' }
    else if c == 'c' { 'C' }
    else if c == 'd' { 'D' }
    else if c == 'e' { 'E' }
    else if c == 'f' { 'F' }
    else if c == 'g' { 'G' }
    else if c == 'h' { 'H' }
    else if c == 'i' { 'I' }
    else if c == 'j' { 'J' }
    else if c == 'k' { 'K' }
    else if c == 'l' { 'L' }
    else if c == 'm' { 'M' }
    else if c == 'n' { 'N' }
    else if c == 'o' { 'O' }
    else if c == 'p' { 'P' }
    else if c == 'q' { 'Q' }
    else if c == 'r' { 'R' }
    else if c == 's' { 'S' }
    else if c == 't' { 'T' }
    else if c == 'u' { 'U' }
    else if c == 'v' { 'V' }
    else if c == 'w' { 'W' }
    else if c == 'x' { 'X' }
    else if c == 'y' { 'Y' }
    else if c == 'z' { 'Z' }
    else { c }
}

/// The capitalized form of a text: the first character brought to an
/// uppercase ASCII letter (the original's marker acts on ASCII alone) and
/// the rest lowered.  Empty text stays empty.
pub open spec fn capitalized_chars(s: Seq<char>) -> Seq<char> {
    if s.len() == 0 {
        Seq::<char>::empty()
    } else {
        seq![upper_char(lower_char(s[0]))] + lower_of(s.skip(1))
    }
}

/// What [`CaseStrategy::apply`] returns for each strategy.
pub open spec fn apply_case(strategy: CaseStrategy, s: Seq<char>) -> Seq<char> {
    match strategy {
        CaseStrategy::Lowercase => lower_of(s),
        CaseStrategy::Uppercase => upper_of(s),
        CaseStrategy::Capitalized => capitalized_chars(s),
        CaseStrategy::Unchanged => s,
    }
}

/// Text satisfies a strategy exactly when applying the strategy leaves it
/// unchanged.
pub open spec fn satisfies_case(strategy: CaseStrategy, s: Seq<char>) -> bool {
    apply_case(strategy, s) == s
}

/// The human-readable name of each convention.
pub open spec fn strategy_name(strategy: CaseStrategy) -> Seq<char> {
    match strategy {
        CaseStrategy::Lowercase => "lowercase"@,
        CaseStrategy::Uppercase => "uppercase"@,
        CaseStrategy::Capitalized => "capitalized"@,
        CaseStrategy::Unchanged => "unchanged"@,
    }
}

/// Exec counterpart of [`lower_char`].
pub(crate) fn lower_char_of(c: char) -> (r: char)
    ensures
        r == lower_char(c),
{
    if c == 'A' { 'a' }
    else if c == 'B' { 'b' }
    else if c == 'C' { 'c' }
    else if c == 'D' { 'd' }
    else if c == 'E' { 'e' }
    else if c == 'F' { 'f' }
    else if c == 'G' { 'g' }
    else if c == 'H' { 'h' }
    else if c == 'I' { 'i' }
    else if c == 'J' { 'j' }
    else if c == 'K' { 'k' }
    else if c == 'L' { 'l' }
    else if c == 'M' { 'm' }
    else if c == 'N' { 'n' }
    else if c == 'O' { 'o' }
    else if c == 'P' { 'p' }
    else if c == 'Q' { 'q' }
    else if c == 'R' { 'r' }
    else if c == 'S' { 's' }
    else if c == 'T' { 't' }
    else if c == 'U' { 'u' }
    else if c == 'V' { 'v' }
    else if c == 'W' { 'w' }
    else if c == 'X' { 'x' }
    else if c == 'Y' { 'y' }
    else if c == 'Z' { 'z' }
    else { c }
}

/// Exec counterpart of [`upper_char`].
pub(crate) fn upper_char_of(c: char) -> (r: char)
    ensures
        r == upper_char(c),
{
    if c == 'a' { 'A' }
    else if c == 'b' { 'B' }
    else if c == 'c' { 'C' }
    else if c == 'd' { 'D' }
    else if c == 'e' { 'E' }
    else if c == 'f' { 'F' }
    else if c == 'g' { 'G' }
    else if c == 'h' { 'H' }
    else if c == 'i' { 'I' }
    else if c == 'j' { 'J' }
    else if c == 'k' { 'K' }
    else if c == 'l' { 'L' }
    else if c == 'm' { 'M' }
    else if c == 'n' { 'N' }
    else if c == 'o' { 'O' }
    else if c == 'p' { 'P' }
    else if c == 'q' { 'Q' }
    else if c == 'r' { 'R' }
    else if c == 's' { 'S' }
    else if c == 't' { 'T' }
    else if c == 'u' { 'U' }
    else if c == 'v' { 'V' }
    else if c == 'w' { 'W' }
    else if c == 'x' { 'X' }
    else if c == 'y' { 'Y' }
    else if c == 'z' { 'Z' }
    else { c }
}

/// Lowering is insensitive to a previous ASCII round trip through
/// uppercase.
proof fn lemma_lower_upper_lower_char(c: char)
    ensures
        lower_char(upper_char(lower_char(c))) == lower_char(c),
{
}

impl CaseStrategy {
    /// Returns `text` transformed to follow the convention of this
    /// strategy.  The result always satisfies the strategy: applying a
    /// strategy is idempotent, so `verify(apply(x))` holds of any text.
    pub fn apply(&self, text: &str) -> (r: String)
        ensures
            r@ == apply_case(*self, text@),
            satisfies_case(*self, r@),
    {
        match self {
            CaseStrategy::Lowercase => lowercase(text),
            CaseStrategy::Uppercase => uppercase(text),
            CaseStrategy::Capitalized => {
                let n = text.unicode_len();
                if n == 0 {
                    let out = String::new();
                    proof {
                        assert(apply_case(*self, text@) =~= out@);
                        assert(capitalized_chars(out@) =~= out@);
                    }
                    return out;
                }
                let first = upper_char_of(lower_char_of(text.get_char(0)));
                let mut out = String::new();
                push_char(&mut out, first);
                let rest = lowercase(text.substring_char(1, n));
                out.append(rest.as_str());
                proof {
                    assert(text@.subrange(1, n as int) =~= text@.skip(1));
                    assert(out@ =~= apply_case(*self, text@));
                    // idempotence: the first character is fixed by the
                    // ASCII round trip, and the lowered rest is fixed by
                    // the case tables
                    lemma_lower_upper_lower_char(text@[0]);
                    assert(out@.skip(1) =~= rest@);
                    assert(capitalized_chars(out@) =~= out@);
                }
                out
            },
            CaseStrategy::Unchanged => text.to_owned(),
        }
    }

    /// Returns true exactly when `text` already follows the convention of
    /// this strategy.
    pub fn verify(&self, text: &str) -> (r: bool)
        ensures
            r == satisfies_case(*self, text@),
    {
        let applied = self.apply(text);
        str_eq(applied.as_str(), text)
    }

    /// A short human-readable name of the convention.
    pub fn name(&self) -> (r: &'static str)
        ensures
            r@ == strategy_name(*self),
    {
        match self {
            CaseStrategy::Lowercase => "lowercase",
            CaseStrategy::Uppercase => "uppercase",
            CaseStrategy::Capitalized => "capitalized",
            CaseStrategy::Unchanged => "unchanged",
        }
    }
}

} // verus!
