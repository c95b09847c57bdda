//! The languages a statement can be written in, and the names by which a
//! procedural language is declared.

use crate::text::chars_of;
use vstd::prelude::*;

verus! {

/// The language of a statement, or of the body of a procedural block.
#[derive(Debug, Clone, Copy, PartialEq, Eq, Structural)]
pub enum Language {
    PgSql,
    PlPgSql,
    Psql,
    PlPerl,
    PlTcl,
    PlPython2,
    PlPython3,
    Other,
}

impl Language {
    /// The number under which the language is stored. The numbers are stable:
    /// a new language never takes the number of an old one.
    pub open spec fn code_of(self) -> int {
        match self {
            Language::PgSql => 0,
            Language::PlPgSql => 1,
            Language::Psql => 2,
            Language::PlPerl => 3,
            Language::PlTcl => 4,
            Language::PlPython2 => 5,
            Language::PlPython3 => 6,
            Language::Other => -1,
        }
    }

    /// True of the two tags that decomposition assigns.
    pub open spec fn is_shallow(self) -> bool {
        self == Language::PgSql || self == Language::Psql
    }

    /// The number under which the language is stored.
    pub fn code(self) -> (code: i64)
        ensures
            code == self.code_of(),
    {
        match self {
            Language::PgSql => 0,
            Language::PlPgSql => 1,
            Language::Psql => 2,
            Language::PlPerl => 3,
            Language::PlTcl => 4,
            Language::PlPython2 => 5,
            Language::PlPython3 => 6,
            Language::Other => -1,
        }
    }

    /// The language stored under `code`, if there is one.
    pub fn from_code(code: i64) -> (language: Option<Language>)
        ensures
            match language {
                Some(l) => l.code_of() == code,
                None => forall|l: Language| l.code_of() != code,
            },
    {
        if code == 0 {
            Some(Language::PgSql)
        } else if code == 1 {
            Some(Language::PlPgSql)
        } else if code == 2 {
            Some(Language::Psql)
        } else if code == 3 {
            Some(Language::PlPerl)
        } else if code == 4 {
            Some(Language::PlTcl)
        } else if code == 5 {
            Some(Language::PlPython2)
        } else if code == 6 {
            Some(Language::PlPython3)
        } else if code == -1 {
            Some(Language::Other)
        } else {
            None
        }
    }
}

/// Two languages with the same number are the same language.
pub proof fn lemma_code_is_injective(a: Language, b: Language)
    requires
        a.code_of() == b.code_of(),
    ensures
        a == b,
{
}

/// True when `c` is `lower` or differs from it only in case. `lower` is a
/// lower-case ASCII letter or a digit. Besides the upper-case ASCII letter,
/// the long s and the Kelvin sign count as forms of `s` and `k`.
pub open spec fn folds_to(c: char, lower: char) -> bool {
    ||| c == lower
    ||| ('A' <= c <= 'Z' && 'a' <= lower <= 'z' && c as u32 + 32 == lower as u32)
    ||| (lower == 's' && c == '\u{17f}')
    ||| (lower == 'k' && c == '\u{212a}')
}

/// True when `name` is `literal` up to case, character by character.
pub open spec fn names(name: Seq<char>, literal: Seq<char>) -> bool {
    &&& name.len() == literal.len()
    &&& forall|i: int| 0 <= i < name.len() ==> folds_to(#[trigger] name[i], literal[i])
}

/// The language that a declared name stands for.
pub open spec fn language_of_name(name: Seq<char>) -> Language {
    if names(name, "plpgsql"@) {
        Language::PlPgSql
    } else if names(name, "plperl"@) {
        Language::PlPerl
    } else if names(name, "pltcl"@) {
        Language::PlTcl
    } else if names(name, "plpython"@) || names(name, "plpythonu"@) || names(
        name,
        "plpython2u"@,
    ) {
        Language::PlPython2
    } else if names(name, "plpython3u"@) {
        Language::PlPython3
    } else {
        Language::Other
    }
}

/// Decides whether `c` is `lower` up to case.
fn char_folds_to(c: char, lower: char) -> (same: bool)
    ensures
        same == folds_to(c, lower),
{
    c == lower || ('A' <= c && c <= 'Z' && 'a' <= lower && lower <= 'z' && (c as u32) + 32 == (
    lower as u32)) || (lower == 's' && c == '\u{17f}') || (lower == 'k' && c == '\u{212a}')
}

/// Decides whether `name` is `literal` up to case.
fn names_literal(name: &Vec<char>, literal: &str) -> (same: bool)
    ensures
        same == names(name@, literal@),
{
    let wanted = chars_of(literal);
    if name.len() != wanted.len() {
        return false;
    }
    let mut i: usize = 0;
    while i < name.len()
        invariant
            i <= name.len(),
            name.len() == wanted.len(),
            wanted@ == literal@,
            forall|j: int| 0 <= j < i ==> folds_to(#[trigger] name@[j], literal@[j]),
        decreases name.len() - i,
    {
        if !char_folds_to(name[i], wanted[i]) {
            return false;
        }
        i = i + 1;
    }
    true
}

/// Maps the name under which a procedural language was declared to the
/// language. Case is ignored; a name that stands for none is `Other`.
pub fn identify_language(lang: &str) -> (language: Language)
    ensures
        language == language_of_name(lang@),
{
    let name = chars_of(lang);
    if names_literal(&name, "plpgsql") {
        Language::PlPgSql
    } else if names_literal(&name, "plperl") {
        Language::PlPerl
    } else if names_literal(&name, "pltcl") {
        Language::PlTcl
    } else if names_literal(&name, "plpython") || names_literal(&name, "plpythonu")
        || names_literal(&name, "plpython2u") {
        Language::PlPython2
    } else if names_literal(&name, "plpython3u") {
        Language::PlPython3
    } else {
        Language::Other
    }
}

} // verus!
