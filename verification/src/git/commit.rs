//! A configuration-driven commit builder: limits come from a [`Config`]
//! implementation rather than a fixed constant, and the commit title is
//! carried in the `description` field.

use vstd::prelude::*;
use vstd::string::StrSliceExecFns;

use crate::commit::strategy::lower_of;
use crate::commit::strategy::upper_of;
use crate::commit::strategy::lowercase;
use crate::commit::strategy::uppercase;
use crate::config::config::Config;

verus! {

/// A commit type of the catalog: a name and the description shown beside
/// it.
#[derive(Debug, Clone, Copy, PartialEq, Eq)]
pub struct CommitType<'a> {
    pub name: &'a str,
    pub description: &'a str,
}

impl<'a> CommitType<'a> {
    /// Creates a commit type from its name and description.
    pub fn new(name: &'a str, description: &'a str) -> (r: Self)
        ensures
            r.name@ == name@,
            r.description@ == description@,
    {
        Self { name, description }
    }
}

/// How a piece of text is normalised before it enters the commit.
#[derive(Debug, Clone, Copy, PartialEq, Eq, Structural)]
pub enum CaseResolutionStrategy {
    /// Text is kept as entered.
    Keep,
    /// Text is lowered.
    LowerCase,
    /// Text is uppered.
    UpperCase,
    /// The first character is uppercased and the rest kept.
    Capitalized,
}

impl Default for CaseResolutionStrategy {
    /// By default text is kept as entered.
    fn default() -> (r: Self)
        ensures
            r == CaseResolutionStrategy::Keep,
    {
        CaseResolutionStrategy::Keep
    }
}

/// What [`CaseResolutionStrategy::resolve`] returns for each strategy:
/// the Unicode case conversions of the standard library, and for
/// `Capitalized` the first character uppercased with the rest kept.
pub open spec fn resolve_case(strategy: CaseResolutionStrategy, s: Seq<char>) -> Seq<char> {
    match strategy {
        CaseResolutionStrategy::Keep => s,
        CaseResolutionStrategy::LowerCase => lower_of(s),
        CaseResolutionStrategy::UpperCase => upper_of(s),
        CaseResolutionStrategy::Capitalized => if s.len() == 0 {
            s
        } else {
            upper_of(s.take(1)) + s.skip(1)
        },
    }
}

impl CaseResolutionStrategy {
    /// Returns `text` normalised under this strategy.
    pub fn resolve(&self, text: &str) -> (r: String)
        ensures
            r@ == resolve_case(*self, text@),
    {
        match self {
            CaseResolutionStrategy::Keep => text.to_owned(),
            CaseResolutionStrategy::LowerCase => lowercase(text),
            CaseResolutionStrategy::UpperCase => uppercase(text),
            CaseResolutionStrategy::Capitalized => {
                let n = text.unicode_len();
                if n == 0 {
                    return String::new();
                }
                let first = text.substring_char(0, 1);
                let mut out = uppercase(first);
                let rest = text.substring_char(1, n);
                out.append(rest);
                proof {
                    assert(first@ =~= text@.take(1));
                    assert(rest@ =~= text@.skip(1));
                    assert(out@ =~= resolve_case(*self, text@));
                }
                out
            },
        }
    }

    /// A short human-readable name of the strategy.
    pub fn name(&self) -> (r: &'static str)
        ensures
            self is Keep ==> r@ == "none"@,
            self is LowerCase ==> r@ == "lowercase"@,
            self is UpperCase ==> r@ == "uppercase"@,
            self is Capitalized ==> r@ == "capitalized"@,
    {
        match self {
            CaseResolutionStrategy::Keep => "none",
            CaseResolutionStrategy::LowerCase => "lowercase",
            CaseResolutionStrategy::UpperCase => "uppercase",
            CaseResolutionStrategy::Capitalized => "capitalized",
        }
    }
}

/// A character with the Unicode White_Space property, as the standard
/// library's whitespace tests count them.
pub open spec fn is_blank_char(c: char) -> bool {
    c == '\u{0009}' || c == '\u{000A}' || c == '\u{000B}' || c == '\u{000C}' || c == '\u{000D}'
        || c == '\u{0020}' || c == '\u{0085}' || c == '\u{00A0}' || c == '\u{1680}'
        || c == '\u{2000}' || c == '\u{2001}' || c == '\u{2002}' || c == '\u{2003}'
        || c == '\u{2004}' || c == '\u{2005}' || c == '\u{2006}' || c == '\u{2007}'
        || c == '\u{2008}' || c == '\u{2009}' || c == '\u{200A}' || c == '\u{2028}'
        || c == '\u{2029}' || c == '\u{202F}' || c == '\u{205F}' || c == '\u{3000}'
}

/// Exec counterpart of [`is_blank_char`].
pub(crate) fn is_blank_char_of(c: char) -> (r: bool)
    ensures
        r == is_blank_char(c),
{
    c == '\u{0009}' || c == '\u{000A}' || c == '\u{000B}' || c == '\u{000C}' || c == '\u{000D}'
        || c == '\u{0020}' || c == '\u{0085}' || c == '\u{00A0}' || c == '\u{1680}'
        || c == '\u{2000}' || c == '\u{2001}' || c == '\u{2002}' || c == '\u{2003}'
        || c == '\u{2004}' || c == '\u{2005}' || c == '\u{2006}' || c == '\u{2007}'
        || c == '\u{2008}' || c == '\u{2009}' || c == '\u{200A}' || c == '\u{2028}'
        || c == '\u{2029}' || c == '\u{202F}' || c == '\u{205F}' || c == '\u{3000}'
}

/// Text that is empty or made of blank characters only.
pub open spec fn is_blank_text(s: Seq<char>) -> bool {
    forall|i: int| 0 <= i < s.len() ==> is_blank_char(s[i])
}

/// A commit assembled by the config-driven builder.  The `description`
/// field carries the commit title; `body` and `footer` are free text.
#[derive(Debug, Clone, PartialEq, Eq)]
pub struct Commit<'a, T: Config<'a>> {
    pub config: &'a T,
    pub commit_type: CommitType<'a>,
    pub scope: Option<String>,
    pub is_breaking_change: bool,
    pub description: String,
    pub body: Option<String>,
    pub footer: Option<String>,
}

/// The canonical text of a config-driven commit:
/// `type(scope)!: description`, the body after a blank line, and the
/// footer after a further blank line (two when there is no body).
pub open spec fn render_commit_spec<'a, T: Config<'a>>(c: Commit<'a, T>) -> Seq<char> {
    c.commit_type.name@ + (match c.scope {
        Some(s) => "("@ + s@ + ")"@,
        None => Seq::<char>::empty(),
    }) + (if c.is_breaking_change {
        "!"@
    } else {
        Seq::<char>::empty()
    }) + ": "@ + c.description@ + (match c.body {
        Some(b) => "\n\n"@ + b@,
        None => Seq::<char>::empty(),
    }) + (match c.footer {
        Some(f) => (if c.body is None {
            "\n\n"@
        } else {
            Seq::<char>::empty()
        }) + "\n\n"@ + f@,
        None => Seq::<char>::empty(),
    })
}

impl<'a, T: Config<'a>> Commit<'a, T> {
    /// Creates a builder bound to the given configuration.
    pub fn builder(config: &'a T) -> (r: CommitBuilder<'a, T>)
        ensures
            r.config == config,
            r.commit_type.name@ == "feat"@,
            r.commit_type.description@ == "A new feature"@,
            r.scope is None,
            r.is_breaking_change == false,
            r.description@ == Seq::<char>::empty(),
            r.body is None,
            r.footer is None,
    {
        CommitBuilder::new(config)
    }

    /// Renders the canonical text of this commit.
    pub fn render(&self) -> (r: String)
        ensures
            r@ == render_commit_spec(*self),
    {
        let mut out = self.commit_type.name.to_owned();
        match &self.scope {
            Some(scope) => {
                out.append("(");
                out.append(scope.as_str());
                out.append(")");
            },
            None => {},
        }
        if self.is_breaking_change {
            out.append("!");
        }
        out.append(": ");
        out.append(self.description.as_str());
        match &self.body {
            Some(body) => {
                out.append("\n\n");
                out.append(body.as_str());
            },
            None => {},
        }
        match &self.footer {
            Some(footer) => {
                if self.body.is_none() {
                    out.append("\n\n");
                }
                out.append("\n\n");
                out.append(footer.as_str());
            },
            None => {},
        }
        proof {
            assert(out@ =~= render_commit_spec(*self));
        }
        out
    }
}

/// The failures the config-driven builder can report.
#[derive(Debug, Clone, PartialEq, Eq)]
pub enum CommitBuildError {
    /// No commit type is available.
    MissingCommitType,
    /// No description is available.
    MissingDescription,
    /// A mutation would push the title over the configured maximum; the
    /// `scope_len` field carries the scope text length, parentheses not
    /// counted.
    ExceedsMaxLineLength {
        type_len: usize,
        scope_len: usize,
        breaking_change_len: usize,
        description_len: usize,
        max_len: usize,
    },
    /// A scope is longer than the configured scope maximum.
    ScopeLengthExceedsMax { scope_len: usize, max_len: usize },
}

/// The human-readable message of each build failure.
pub open spec fn build_error_message(e: CommitBuildError) -> Seq<char> {
    match e {
        CommitBuildError::MissingCommitType => "missing commit type"@,
        CommitBuildError::MissingDescription => "missing description"@,
        CommitBuildError::ExceedsMaxLineLength {
            type_len,
            scope_len,
            breaking_change_len,
            description_len,
            max_len,
        } => "exceeds max line length (type: "@ + crate::util::strutil::dec_digits(type_len as nat)
            + " + scope: "@ + crate::util::strutil::dec_digits(scope_len as nat)
            + " + breaking: "@ + crate::util::strutil::dec_digits(breaking_change_len as nat)
            + " + description: "@ + crate::util::strutil::dec_digits(description_len as nat)
            + " = "@ + crate::util::strutil::dec_digits(
            (type_len + scope_len + breaking_change_len + description_len) as nat,
        ) + " > "@ + crate::util::strutil::dec_digits(max_len as nat) + ")"@,
        CommitBuildError::ScopeLengthExceedsMax { scope_len, max_len } => "scope length exceeds max ("@
            + crate::util::strutil::dec_digits(scope_len as nat) + " > "@
            + crate::util::strutil::dec_digits(max_len as nat) + ")"@,
    }
}

impl CommitBuildError {
    /// Renders the human-readable message for this failure.
    pub fn message(&self) -> (r: String)
        ensures
            r@ == build_error_message(*self),
    {
        match self {
            CommitBuildError::MissingCommitType => String::from_str("missing commit type"),
            CommitBuildError::MissingDescription => String::from_str("missing description"),
            CommitBuildError::ExceedsMaxLineLength {
                type_len,
                scope_len,
                breaking_change_len,
                description_len,
                max_len,
            } => {
                let mut out = String::new();
                out.append("exceeds max line length (type: ");
                let text = crate::util::strutil::usize_to_string(*type_len);
                out.append(text.as_str());
                out.append(" + scope: ");
                let text = crate::util::strutil::usize_to_string(*scope_len);
                out.append(text.as_str());
                out.append(" + breaking: ");
                let text = crate::util::strutil::usize_to_string(*breaking_change_len);
                out.append(text.as_str());
                out.append(" + description: ");
                let text = crate::util::strutil::usize_to_string(*description_len);
                out.append(text.as_str());
                out.append(" = ");
                let total: u128 = *type_len as u128 + *scope_len as u128 + *breaking_change_len
                    as u128 + *description_len as u128;
                let text = crate::util::strutil::u128_to_string(total);
                out.append(text.as_str());
                out.append(" > ");
                let text = crate::util::strutil::usize_to_string(*max_len);
                out.append(text.as_str());
                out.append(")");
                proof {
                    assert(out@ =~= build_error_message(*self));
                }
                out
            },
            CommitBuildError::ScopeLengthExceedsMax { scope_len, max_len } => {
                let mut out = String::new();
                out.append("scope length exceeds max (");
                let text = crate::util::strutil::usize_to_string(*scope_len);
                out.append(text.as_str());
                out.append(" > ");
                let text = crate::util::strutil::usize_to_string(*max_len);
                out.append(text.as_str());
                out.append(")");
                proof {
                    assert(out@ =~= build_error_message(*self));
                }
                out
            },
        }
    }
}

/// Accumulates the pieces of a config-driven commit.  Every length check
/// happens before its mutation, so a rejected call leaves the builder
/// untouched.
#[derive(Debug, Clone, PartialEq, Eq)]
pub struct CommitBuilder<'a, T: Config<'a>> {
    pub config: &'a T,
    pub commit_type: CommitType<'a>,
    pub scope: Option<String>,
    pub is_breaking_change: bool,
    pub description: String,
    pub body: Option<String>,
    pub footer: Option<String>,
}

impl<'a, T: Config<'a>> CommitBuilder<'a, T> {
    /// The characters the commit type contributes to the title.
    pub open spec fn spec_type_len(&self) -> int {
        self.commit_type.name@.len() as int
    }

    /// The scope text length, parentheses not counted.
    pub open spec fn spec_scope_text_len(&self) -> int {
        match self.scope {
            Some(s) => s@.len() as int,
            None => 0,
        }
    }

    /// The characters the scope contributes to the title, parentheses
    /// counted.
    pub open spec fn spec_scope_len(&self) -> int {
        match self.scope {
            Some(s) => s@.len() as int + 2,
            None => 0,
        }
    }

    /// The character the breaking-change marker contributes to the title.
    pub open spec fn spec_breaking_len(&self) -> int {
        if self.is_breaking_change {
            1
        } else {
            0
        }
    }

    /// The characters the description contributes to the title.
    pub open spec fn spec_description_len(&self) -> int {
        self.description@.len() as int
    }

    /// The configured maximum title length.
    pub open spec fn spec_max(&self) -> int {
        self.config.spec_max_message_len() as int
    }

    /// Creates a builder bound to the given configuration.
    pub fn new(config: &'a T) -> (r: Self)
        ensures
            r.config == config,
            r.commit_type.name@ == "feat"@,
            r.commit_type.description@ == "A new feature"@,
            r.scope is None,
            r.is_breaking_change == false,
            r.description@ == Seq::<char>::empty(),
            r.body is None,
            r.footer is None,
    {
        Self {
            config,
            commit_type: CommitType::new("feat", "A new feature"),
            scope: None,
            is_breaking_change: false,
            description: String::new(),
            body: None,
            footer: None,
        }
    }

    /// The length of the commit type name, in characters.
    pub fn commit_type_len(&self) -> (r: usize)
        ensures
            r == self.spec_type_len(),
    {
        self.commit_type.name.unicode_len()
    }

    /// The characters the scope occupies in the title, parentheses
    /// counted.
    pub fn scope_len(&self) -> (r: usize)
        requires
            self.spec_scope_len() <= usize::MAX,
        ensures
            r == self.spec_scope_len(),
    {
        match &self.scope {
            Some(s) => s.as_str().unicode_len() + 2,
            None => 0,
        }
    }

    /// The character the breaking-change marker occupies in the title.
    pub fn is_breaking_change_len(&self) -> (r: usize)
        ensures
            r == self.spec_breaking_len(),
    {
        if self.is_breaking_change {
            1
        } else {
            0
        }
    }

    /// The length of the description, in characters.
    pub fn description_len(&self) -> (r: usize)
        ensures
            r == self.spec_description_len(),
    {
        self.description.as_str().unicode_len()
    }

    /// Sets the commit type; rejected, with the builder unchanged, when
    /// the title would exceed the configured maximum.
    pub fn commit_type(&mut self, commit_type: CommitType<'a>) -> (r: Result<
        (),
        CommitBuildError,
    >)
        ensures
            ({
                let fits = commit_type.name@.len() + old(self).spec_scope_len() + old(
                    self,
                ).spec_breaking_len() + old(self).spec_description_len() <= old(self).spec_max();
                if fits {
                    &&& r is Ok
                    &&& *final(self) == (CommitBuilder { commit_type, ..*old(self) })
                } else {
                    &&& *final(self) == *old(self)
                    &&& r matches Err(e) && e == (CommitBuildError::ExceedsMaxLineLength {
                        type_len: commit_type.name@.len() as usize,
                        scope_len: old(self).spec_scope_text_len() as usize,
                        breaking_change_len: old(self).spec_breaking_len() as usize,
                        description_len: old(self).spec_description_len() as usize,
                        max_len: old(self).config.spec_max_message_len(),
                    })
                }
            }),
    {
        let max = self.config.max_commit_message_length();
        let type_len = commit_type.name.unicode_len();
        let scope_text_len: usize = match &self.scope {
            Some(s) => s.as_str().unicode_len(),
            None => 0,
        };
        let scope_part: u128 = match &self.scope {
            Some(_) => scope_text_len as u128 + 2,
            None => 0,
        };
        let breaking_len: usize = if self.is_breaking_change {
            1
        } else {
            0
        };
        let desc_len = self.description.as_str().unicode_len();
        if type_len as u128 + scope_part + breaking_len as u128 + desc_len as u128 > max as u128 {
            return Err(
                CommitBuildError::ExceedsMaxLineLength {
                    type_len,
                    scope_len: scope_text_len,
                    breaking_change_len: breaking_len,
                    description_len: desc_len,
                    max_len: max,
                },
            );
        }
        self.commit_type = commit_type;
        Ok(())
    }

    /// Sets the scope; rejected, with the builder unchanged, when the
    /// scope exceeds the configured scope maximum or the title would
    /// exceed the configured maximum.
    pub fn scope(&mut self, scope: &str) -> (r: Result<(), CommitBuildError>)
        ensures
            ({
                let over_scope_limit = match old(self).config.spec_max_scope_len() {
                    Some(m) => scope@.len() > m,
                    None => false,
                };
                let fits = old(self).spec_type_len() + scope@.len() + old(
                    self,
                ).spec_breaking_len() + old(self).spec_description_len() <= old(self).spec_max();
                if over_scope_limit {
                    &&& *final(self) == *old(self)
                    &&& r matches Err(e) && e == (CommitBuildError::ScopeLengthExceedsMax {
                        scope_len: scope@.len() as usize,
                        max_len: (match old(self).config.spec_max_scope_len() {
                            Some(m) => m,
                            None => 0,
                        }),
                    })
                } else if !fits {
                    &&& *final(self) == *old(self)
                    &&& r matches Err(e) && e == (CommitBuildError::ExceedsMaxLineLength {
                        type_len: old(self).spec_type_len() as usize,
                        scope_len: scope@.len() as usize,
                        breaking_change_len: old(self).spec_breaking_len() as usize,
                        description_len: old(self).spec_description_len() as usize,
                        max_len: old(self).config.spec_max_message_len(),
                    })
                } else {
                    &&& r is Ok
                    &&& final(self).scope matches Some(s) && s@ == scope@
                    &&& *final(self) == (CommitBuilder { scope: final(self).scope, ..*old(self) })
                }
            }),
    {
        let scope_chars = scope.unicode_len();
        match self.config.max_scope_length() {
            Some(max_scope) => {
                if scope_chars > max_scope {
                    return Err(
                        CommitBuildError::ScopeLengthExceedsMax {
                            scope_len: scope_chars,
                            max_len: max_scope,
                        },
                    );
                }
            },
            None => {},
        }
        let max = self.config.max_commit_message_length();
        let type_len = self.commit_type_len();
        let breaking_len = self.is_breaking_change_len();
        let desc_len = self.description_len();
        if type_len as u128 + scope_chars as u128 + breaking_len as u128 + desc_len as u128
            > max as u128 {
            return Err(
                CommitBuildError::ExceedsMaxLineLength {
                    type_len,
                    scope_len: scope_chars,
                    breaking_change_len: breaking_len,
                    description_len: desc_len,
                    max_len: max,
                },
            );
        }
        self.scope = Some(scope.to_owned());
        Ok(())
    }

    /// Sets or clears the breaking-change marker; rejected, with the
    /// builder unchanged, when the title would exceed the configured
    /// maximum.
    pub fn is_breaking_change(&mut self, is_breaking_change: bool) -> (r: Result<
        (),
        CommitBuildError,
    >)
        ensures
            ({
                let marker: int = if is_breaking_change {
                    1
                } else {
                    0
                };
                let fits = old(self).spec_type_len() + old(self).spec_scope_len() + marker + old(
                    self,
                ).spec_description_len() <= old(self).spec_max();
                if fits {
                    &&& r is Ok
                    &&& *final(self) == (CommitBuilder { is_breaking_change, ..*old(self) })
                } else {
                    &&& *final(self) == *old(self)
                    &&& r matches Err(e) && e == (CommitBuildError::ExceedsMaxLineLength {
                        type_len: old(self).spec_type_len() as usize,
                        scope_len: old(self).spec_scope_text_len() as usize,
                        breaking_change_len: marker as usize,
                        description_len: old(self).spec_description_len() as usize,
                        max_len: old(self).config.spec_max_message_len(),
                    })
                }
            }),
    {
        let max = self.config.max_commit_message_length();
        let type_len = self.commit_type_len();
        let scope_text_len: usize = match &self.scope {
            Some(s) => s.as_str().unicode_len(),
            None => 0,
        };
        let scope_part: u128 = match &self.scope {
            Some(_) => scope_text_len as u128 + 2,
            None => 0,
        };
        let marker: usize = if is_breaking_change {
            1
        } else {
            0
        };
        let desc_len = self.description_len();
        if type_len as u128 + scope_part + marker as u128 + desc_len as u128 > max as u128 {
            return Err(
                CommitBuildError::ExceedsMaxLineLength {
                    type_len,
                    scope_len: scope_text_len,
                    breaking_change_len: marker,
                    description_len: desc_len,
                    max_len: max,
                },
            );
        }
        self.is_breaking_change = is_breaking_change;
        Ok(())
    }

    /// Sets the description (the commit title text); rejected, with the
    /// builder unchanged, when the title would exceed the configured
    /// maximum.
    pub fn description(&mut self, description: &str) -> (r: Result<(), CommitBuildError>)
        ensures
            ({
                let fits = old(self).spec_type_len() + old(self).spec_scope_len() + old(
                    self,
                ).spec_breaking_len() + description@.len() <= old(self).spec_max();
                if fits {
                    &&& r is Ok
                    &&& final(self).description@ == description@
                    &&& *final(self) == (CommitBuilder {
                        description: final(self).description,
                        ..*old(self)
                    })
                } else {
                    &&& *final(self) == *old(self)
                    &&& r matches Err(e) && e == (CommitBuildError::ExceedsMaxLineLength {
                        type_len: old(self).spec_type_len() as usize,
                        scope_len: old(self).spec_scope_text_len() as usize,
                        breaking_change_len: old(self).spec_breaking_len() as usize,
                        description_len: description@.len() as usize,
                        max_len: old(self).config.spec_max_message_len(),
                    })
                }
            }),
    {
        let max = self.config.max_commit_message_length();
        let type_len = self.commit_type_len();
        let scope_text_len: usize = match &self.scope {
            Some(s) => s.as_str().unicode_len(),
            None => 0,
        };
        let scope_part: u128 = match &self.scope {
            Some(_) => scope_text_len as u128 + 2,
            None => 0,
        };
        let breaking_len = self.is_breaking_change_len();
        let desc_chars = description.unicode_len();
        if type_len as u128 + scope_part + breaking_len as u128 + desc_chars as u128
            > max as u128 {
            return Err(
                CommitBuildError::ExceedsMaxLineLength {
                    type_len,
                    scope_len: scope_text_len,
                    breaking_change_len: breaking_len,
                    description_len: desc_chars,
                    max_len: max,
                },
            );
        }
        self.description = description.to_owned();
        Ok(())
    }

    /// Sets the body, unless the text is empty or all blank.
    pub fn body(&mut self, body: &str)
        ensures
            is_blank_text(body@) ==> *final(self) == *old(self),
            !is_blank_text(body@) ==> {
                &&& final(self).body matches Some(b) && b@ == body@
                &&& *final(self) == (CommitBuilder { body: final(self).body, ..*old(self) })
            },
    {
        if is_blank(body) {
            return ;
        }
        self.body = Some(body.to_owned());
    }

    /// Sets the footer, unless the text is empty or all blank.
    pub fn footer(&mut self, footer: &str)
        ensures
            is_blank_text(footer@) ==> *final(self) == *old(self),
            !is_blank_text(footer@) ==> {
                &&& final(self).footer matches Some(f) && f@ == footer@
                &&& *final(self) == (CommitBuilder { footer: final(self).footer, ..*old(self) })
            },
    {
        if is_blank(footer) {
            return ;
        }
        self.footer = Some(footer.to_owned());
    }

    /// Builds the commit from the currently-set fields; never fails, since
    /// the builder always holds a commit type and a description.
    pub fn build(&self) -> (r: Commit<'a, T>)
        ensures
            r.config == self.config,
            r.commit_type == self.commit_type,
            r.scope == self.scope,
            r.is_breaking_change == self.is_breaking_change,
            r.description == self.description,
            r.body == self.body,
            r.footer == self.footer,
    {
        let scope = match &self.scope {
            Some(s) => Some(s.clone()),
            None => None,
        };
        let body = match &self.body {
            Some(b) => Some(b.clone()),
            None => None,
        };
        let footer = match &self.footer {
            Some(f) => Some(f.clone()),
            None => None,
        };
        Commit {
            config: self.config,
            commit_type: self.commit_type,
            scope,
            is_breaking_change: self.is_breaking_change,
            description: self.description.clone(),
            body,
            footer,
        }
    }
}

/// Returns true exactly when `text` is empty or all blank.
fn is_blank(text: &str) -> (r: bool)
    ensures
        r == is_blank_text(text@),
{
    let n = text.unicode_len();
    let mut i: usize = 0;
    while i < n
        invariant
            n == text@.len(),
            0 <= i <= n,
            forall|j: int| 0 <= j < i ==> is_blank_char(text@[j]),
        decreases n - i,
    {
        if !is_blank_char_of(text.get_char(i)) {
            return false;
        }
        i = i + 1;
    }
    true
}

} // verus!
