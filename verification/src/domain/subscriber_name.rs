//! Subscriber names.
//!
//! A name is acceptable when it is not blank, has at most
//! [`MAX_NAME_LENGTH`] characters and holds none of the characters
//! `/ ( ) " < > \ { }`. Length counts Unicode scalar values. An accepted
//! name is stored exactly as it was submitted: whitespace around it is looked
//! through when deciding whether the name is blank, and is not removed.

use vstd::prelude::*;
use crate::domain::validation_error::{Rule, ValidationError};

verus! {

/// The largest number of characters a name may have.
pub const MAX_NAME_LENGTH: usize = 256;

/// The characters with the Unicode property `White_Space`.
pub open spec fn is_whitespace(c: char) -> bool {
    ||| '\u{0009}' <= c <= '\u{000D}'
    ||| c == '\u{0020}'
    ||| c == '\u{0085}'
    ||| c == '\u{00A0}'
    ||| c == '\u{1680}'
    ||| '\u{2000}' <= c <= '\u{200A}'
    ||| c == '\u{2028}'
    ||| c == '\u{2029}'
    ||| c == '\u{202F}'
    ||| c == '\u{205F}'
    ||| c == '\u{3000}'
}

/// The characters that no name may hold.
pub open spec fn is_forbidden(c: char) -> bool {
    ||| c == '/'
    ||| c == '('
    ||| c == ')'
    ||| c == '"'
    ||| c == '<'
    ||| c == '>'
    ||| c == '\\'
    ||| c == '{'
    ||| c == '}'
}

/// Nothing is left of `s` once leading and trailing whitespace is trimmed:
/// every character of `s`, if it has any, is whitespace.
pub open spec fn is_blank(s: Seq<char>) -> bool {
    forall|i: int| 0 <= i < s.len() ==> is_whitespace(#[trigger] s[i])
}

/// Some character of `s` is forbidden.
pub open spec fn has_forbidden_character(s: Seq<char>) -> bool {
    exists|i: int| 0 <= i < s.len() && is_forbidden(#[trigger] s[i])
}

/// The rule that `s` breaks as a name, if it breaks one. Where it breaks
/// several, the first of blank, too long, forbidden character is reported.
pub open spec fn name_violation(s: Seq<char>) -> Option<Rule> {
    if is_blank(s) {
        Some(Rule::EmptyName)
    } else if s.len() > MAX_NAME_LENGTH {
        Some(Rule::NameTooLong)
    } else if has_forbidden_character(s) {
        Some(Rule::ForbiddenCharacter)
    } else {
        None
    }
}

/// `s` is acceptable as a subscriber name.
pub open spec fn valid_name(s: Seq<char>) -> bool {
    &&& !is_blank(s)
    &&& s.len() <= MAX_NAME_LENGTH
    &&& !has_forbidden_character(s)
}

/// Whether `c` is whitespace.
fn whitespace(c: char) -> (b: bool)
    ensures
        b == is_whitespace(c),
{
    ('\u{0009}' <= c && c <= '\u{000D}') || c == '\u{0020}' || c == '\u{0085}' || c == '\u{00A0}'
        || c == '\u{1680}' || ('\u{2000}' <= c && c <= '\u{200A}') || c == '\u{2028}' || c
        == '\u{2029}' || c == '\u{202F}' || c == '\u{205F}' || c == '\u{3000}'
}

/// Whether `c` is one of the characters that no name may hold.
fn forbidden(c: char) -> (b: bool)
    ensures
        b == is_forbidden(c),
{
    c == '/' || c == '(' || c == ')' || c == '"' || c == '<' || c == '>' || c == '\\' || c == '{'
        || c == '}'
}

/// Whether every character of `s` is whitespace.
fn blank(s: &str) -> (b: bool)
    ensures
        b == is_blank(s@),
{
    for c in it: s.chars()
        invariant
            it.seq() == s@,
            forall|i: int| 0 <= i < it.index() ==> is_whitespace(#[trigger] s@[i]),
    {
        if !whitespace(c) {
            assert(!is_whitespace(s@[it.index()]));
            return false;
        }
    }
    true
}

/// Whether `s` holds a forbidden character.
fn holds_forbidden_character(s: &str) -> (b: bool)
    ensures
        b == has_forbidden_character(s@),
{
    for c in it: s.chars()
        invariant
            it.seq() == s@,
            forall|i: int| 0 <= i < it.index() ==> !is_forbidden(#[trigger] s@[i]),
    {
        if forbidden(c) {
            assert(is_forbidden(s@[it.index()]));
            return true;
        }
    }
    false
}

/// A subscriber name. Every value of this type holds an acceptable name.
#[derive(Debug, PartialEq, Eq)]
pub struct SubscriberName {
    value: String,
}

impl View for SubscriberName {
    type V = Seq<char>;

    /// The text of the name.
    closed spec fn view(&self) -> Seq<char> {
        self.value@
    }
}

impl SubscriberName {
    #[verifier::type_invariant]
    spec fn well_formed(self) -> bool {
        valid_name(self.value@)
    }

    /// What [`SubscriberName::parse`] returns for `s`.
    pub closed spec fn parse_spec(s: String) -> Result<SubscriberName, ValidationError> {
        match name_violation(s@) {
            Some(rule) => Err(ValidationError { raw: s, rule }),
            None => Ok(SubscriberName { value: s }),
        }
    }

    /// `parse_spec` in terms of the text alone.
    pub proof fn lemma_parse_spec(s: String)
        ensures
            Self::parse_spec(s) is Ok <==> valid_name(s@),
            Self::parse_spec(s) matches Ok(name) ==> name@ == s@,
            Self::parse_spec(s) matches Err(e) ==> e.raw == s && Some(e.rule) == name_violation(
                s@,
            ),
    {
    }

    /// Accepts `s` as a name, or refuses it with the rule it breaks. An
    /// accepted name reads back as `s`, character for character; a refusal
    /// hands `s` back untouched.
    pub fn parse(s: String) -> (r: Result<SubscriberName, ValidationError>)
        ensures
            r == Self::parse_spec(s),
            r is Ok <==> valid_name(s@),
            r matches Ok(name) ==> name@ == s@,
            r matches Err(e) ==> e.raw == s && Some(e.rule) == name_violation(s@),
            is_blank(s@) ==> r is Err,
            s@.len() > MAX_NAME_LENGTH ==> r is Err,
            has_forbidden_character(s@) ==> r is Err,
    {
        if blank(s.as_str()) {
            Err(ValidationError { raw: s, rule: Rule::EmptyName })
        } else if s.as_str().unicode_len() > MAX_NAME_LENGTH {
            Err(ValidationError { raw: s, rule: Rule::NameTooLong })
        } else if holds_forbidden_character(s.as_str()) {
            Err(ValidationError { raw: s, rule: Rule::ForbiddenCharacter })
        } else {
            Ok(SubscriberName { value: s })
        }
    }
}

impl AsRef<str> for SubscriberName {
    /// The text of the name.
    fn as_ref(&self) -> (s: &str)
        ensures
            s@ == self@,
            valid_name(s@),
    {
        proof {
            use_type_invariant(self);
        }
        self.value.as_str()
    }
}

/// Parsing equal text twice gives equal answers: either both calls accept it,
/// as names that read the same, or both refuse it, for the same rule and
/// with the same text handed back.
pub proof fn lemma_parse_is_deterministic(
    s1: String,
    s2: String,
    r1: Result<SubscriberName, ValidationError>,
    r2: Result<SubscriberName, ValidationError>,
)
    requires
        s1@ == s2@,
        call_ensures(SubscriberName::parse, (s1,), r1),
        call_ensures(SubscriberName::parse, (s2,), r2),
    ensures
        r1 is Ok <==> r2 is Ok,
        r1 is Ok ==> r1->Ok_0@ == r2->Ok_0@,
        r1 is Err ==> r1->Err_0.rule == r2->Err_0.rule && r1->Err_0.raw@ == r2->Err_0.raw@,
{
}

/// The text of an accepted name is accepted again, as a name that reads the
/// same.
pub proof fn lemma_parse_is_idempotent(
    s: String,
    name: SubscriberName,
    again: String,
    r: Result<SubscriberName, ValidationError>,
)
    requires
        call_ensures(SubscriberName::parse, (s,), Ok(name)),
        again@ == name@,
        call_ensures(SubscriberName::parse, (again,), r),
    ensures
        r is Ok,
        r->Ok_0@ == name@,
{
}

impl Clone for SubscriberName {
    fn clone(&self) -> (copy: Self)
        ensures
            copy@ == self@,
    {
        proof {
            use_type_invariant(self);
        }
        SubscriberName { value: self.value.clone() }
    }
}

} // verus!
