//! Subscriber email addresses.
//!
//! An address is a local part, one `@`, and a domain, all in ASCII:
//!
//! * the local part has 1 to [`MAX_LOCAL_PART_LENGTH`] characters, each a
//!   letter, a digit or one of ``. ! # $ % & ' * + / = ? ^ _ ` { | } ~ -``;
//! * the domain has at most [`MAX_DOMAIN_LENGTH`] characters and is two or
//!   more labels joined by dots;
//! * a label has 1 to [`MAX_LABEL_LENGTH`] characters, each a letter, a digit
//!   or a hyphen, and neither begins nor ends with a hyphen.
//!
//! So an address holds no whitespace and no control character, and its
//! domain holds at least one dot. Quoted local parts, address literals in
//! brackets and domains outside ASCII are not accepted.

use vstd::prelude::*;
use vstd::slice::slice_subrange;
use crate::domain::validation_error::{Rule, ValidationError};

verus! {

/// The largest number of characters before the `@`.
pub const MAX_LOCAL_PART_LENGTH: usize = 64;

/// The largest number of characters after the `@`.
pub const MAX_DOMAIN_LENGTH: usize = 255;

/// The largest number of characters in one label of the domain.
pub const MAX_LABEL_LENGTH: usize = 63;

/// The largest number of characters in an address.
pub const MAX_EMAIL_LENGTH: usize = 320;

/// An ASCII letter or digit.
pub open spec fn is_alphanumeric(c: char) -> bool {
    ||| 'a' <= c <= 'z'
    ||| 'A' <= c <= 'Z'
    ||| '0' <= c <= '9'
}

/// A character that may stand in the local part.
pub open spec fn is_local_character(c: char) -> bool {
    ||| is_alphanumeric(c)
    ||| c == '.'
    ||| c == '!'
    ||| c == '#'
    ||| c == '$'
    ||| c == '%'
    ||| c == '&'
    ||| c == '\''
    ||| c == '*'
    ||| c == '+'
    ||| c == '/'
    ||| c == '='
    ||| c == '?'
    ||| c == '^'
    ||| c == '_'
    ||| c == '`'
    ||| c == '{'
    ||| c == '|'
    ||| c == '}'
    ||| c == '~'
    ||| c == '-'
}

/// A character that may stand in the domain.
pub open spec fn is_domain_character(c: char) -> bool {
    is_alphanumeric(c) || c == '-' || c == '.'
}

/// `p` is acceptable before the `@`.
pub open spec fn valid_local_part(p: Seq<char>) -> bool {
    &&& 1 <= p.len() <= MAX_LOCAL_PART_LENGTH
    &&& forall|i: int| 0 <= i < p.len() ==> is_local_character(#[trigger] p[i])
}

/// The character at `i` has a letter or digit on either side of it in `d`.
pub open spec fn between_alphanumerics(d: Seq<char>, i: int) -> bool {
    &&& 0 < i < d.len() - 1
    &&& is_alphanumeric(d[i - 1])
    &&& is_alphanumeric(d[i + 1])
}

/// One of the `MAX_LABEL_LENGTH + 1` characters of `d` from `i` on is a dot.
pub open spec fn label_ends_after(d: Seq<char>, i: int) -> bool {
    exists|j: int| i <= j <= i + MAX_LABEL_LENGTH && #[trigger] d[j] == '.'
}

/// `d` is acceptable after the `@`.
///
/// The labels of `d` are what its dots separate. That `d` begins and ends
/// with a letter or digit, and that every dot stands between two of them,
/// says that there is a label on each side of every dot and that no label
/// begins or ends with a hyphen.
pub open spec fn valid_domain(d: Seq<char>) -> bool {
    &&& 1 <= d.len() <= MAX_DOMAIN_LENGTH
    &&& forall|i: int| 0 <= i < d.len() ==> is_domain_character(#[trigger] d[i])
    &&& is_alphanumeric(d.first())
    &&& is_alphanumeric(d.last())
    &&& forall|i: int| 0 <= i < d.len() && d[i] == '.' ==> #[trigger] between_alphanumerics(d, i)
    &&& exists|i: int| 0 <= i < d.len() && #[trigger] d[i] == '.'
    &&& forall|i: int| 0 <= i && i + MAX_LABEL_LENGTH < d.len() ==> #[trigger] label_ends_after(d, i)
}

/// `s` splits at position `at` into an acceptable local part, an `@` and an
/// acceptable domain.
pub open spec fn splits_at(s: Seq<char>, at: int) -> bool {
    &&& 0 <= at < s.len()
    &&& s[at] == '@'
    &&& valid_local_part(s.subrange(0, at))
    &&& valid_domain(s.subrange(at + 1, s.len() as int))
}

/// `s` is acceptable as a subscriber email address.
pub open spec fn valid_email(s: Seq<char>) -> bool {
    exists|at: int| #[trigger] splits_at(s, at)
}

/// An address holds an `@`.
pub proof fn lemma_email_holds_at(s: Seq<char>)
    requires
        valid_email(s),
    ensures
        s.contains('@'),
        s.len() > 0,
{
    let at = choose|at: int| #[trigger] splits_at(s, at);
    assert(s[at] == '@');
}

/// An address has at most `MAX_EMAIL_LENGTH` characters.
pub proof fn lemma_email_length(s: Seq<char>)
    requires
        valid_email(s),
    ensures
        s.len() <= MAX_EMAIL_LENGTH,
{
    let at = choose|at: int| #[trigger] splits_at(s, at);
    assert(s.subrange(0, at).len() == at);
    assert(s.subrange(at + 1, s.len() as int).len() == s.len() - at - 1);
}

/// An address splits at its first `@` and nowhere else.
pub proof fn lemma_splits_at_first_at(s: Seq<char>, first: int)
    requires
        0 <= first < s.len(),
        s[first] == '@',
        forall|i: int| 0 <= i < first ==> s[i] != '@',
    ensures
        valid_email(s) <==> splits_at(s, first),
{
    if valid_email(s) {
        let at = choose|at: int| #[trigger] splits_at(s, at);
        if at > first {
            let local = s.subrange(0, at);
            assert(local[first] == '@');
            assert(is_local_character(local[first]));
        }
    }
}

fn alphanumeric(c: char) -> (b: bool)
    ensures
        b == is_alphanumeric(c),
{
    ('a' <= c && c <= 'z') || ('A' <= c && c <= 'Z') || ('0' <= c && c <= '9')
}

fn local_character(c: char) -> (b: bool)
    ensures
        b == is_local_character(c),
{
    alphanumeric(c) || c == '.' || c == '!' || c == '#' || c == '$' || c == '%' || c == '&' || c
        == '\'' || c == '*' || c == '+' || c == '/' || c == '=' || c == '?' || c == '^' || c == '_'
        || c == '`' || c == '{' || c == '|' || c == '}' || c == '~' || c == '-'
}

/// The characters of `s`, in order.
fn characters(s: &str) -> (v: Vec<char>)
    ensures
        v@ == s@,
{
    let mut v: Vec<char> = Vec::new();
    for c in it: s.chars()
        invariant
            it.seq() == s@,
            v@ == s@.subrange(0, it.index()),
    {
        v.push(c);
        assert(v@ == s@.subrange(0, it.index() + 1));
    }
    assert(v@ == s@);
    v
}

/// The position of the first `@` in `s`.
fn first_at(s: &[char]) -> (r: Option<usize>)
    ensures
        match r {
            Some(at) => at < s@.len() && s@[at as int] == '@' && forall|i: int|
                0 <= i < at ==> s@[i] != '@',
            None => !s@.contains('@'),
        },
{
    let n = s.len();
    let mut i: usize = 0;
    while i < n
        invariant
            n == s@.len(),
            i <= n,
            forall|k: int| 0 <= k < i ==> s@[k] != '@',
        decreases n - i,
    {
        if s[i] == '@' {
            return Some(i);
        }
        i += 1;
    }
    None
}

/// Whether `p` is acceptable before the `@`.
fn acceptable_local_part(p: &[char]) -> (b: bool)
    ensures
        b == valid_local_part(p@),
{
    let n = p.len();
    if n == 0 || n > MAX_LOCAL_PART_LENGTH {
        return false;
    }
    let mut i: usize = 0;
    while i < n
        invariant
            n == p@.len(),
            i <= n,
            forall|k: int| 0 <= k < i ==> is_local_character(#[trigger] p@[k]),
        decreases n - i,
    {
        if !local_character(p[i]) {
            return false;
        }
        i += 1;
    }
    true
}

/// Whether `d` is acceptable after the `@`.
fn acceptable_domain(d: &[char]) -> (b: bool)
    ensures
        b == valid_domain(d@),
{
    let n = d.len();
    if n == 0 || n > MAX_DOMAIN_LENGTH {
        return false;
    }
    if !alphanumeric(d[0]) || !alphanumeric(d[n - 1]) {
        return false;
    }
    // `label` counts the characters read since the last dot.
    let mut label: usize = 0;
    let mut dotted = false;
    let mut i: usize = 0;
    while i < n
        invariant
            n == d@.len(),
            1 <= n <= MAX_DOMAIN_LENGTH,
            is_alphanumeric(d@.first()),
            is_alphanumeric(d@.last()),
            i <= n,
            label <= MAX_LABEL_LENGTH,
            label <= i,
            forall|k: int| i - label <= k < i ==> d@[k] != '.',
            label < i ==> d@[i - label - 1] == '.',
            dotted == exists|k: int| 0 <= k < i && #[trigger] d@[k] == '.',
            forall|k: int| 0 <= k < i ==> is_domain_character(#[trigger] d@[k]),
            forall|k: int| 0 <= k < i && d@[k] == '.' ==> #[trigger] between_alphanumerics(d@, k),
            forall|k: int| 0 <= k && k + MAX_LABEL_LENGTH < i ==> #[trigger] label_ends_after(d@, k),
        decreases n - i,
    {
        let c = d[i];
        if c == '.' {
            if !alphanumeric(d[i - 1]) || !alphanumeric(d[i + 1]) {
                assert(!between_alphanumerics(d@, i as int));
                return false;
            }
            assert(between_alphanumerics(d@, i as int));
            assert forall|k: int| 0 <= k && k + MAX_LABEL_LENGTH < i + 1 implies #[trigger] label_ends_after(d@, k) by {
                if k + MAX_LABEL_LENGTH == i {
                    assert(d@[i as int] == '.');
                }
            }
            label = 0;
            dotted = true;
        } else if alphanumeric(c) || c == '-' {
            if label == MAX_LABEL_LENGTH {
                assert(!label_ends_after(d@, i - MAX_LABEL_LENGTH));
                return false;
            }
            assert forall|k: int| 0 <= k && k + MAX_LABEL_LENGTH < i + 1 implies #[trigger] label_ends_after(d@, k) by {
                if k + MAX_LABEL_LENGTH == i {
                    assert(d@[i - label - 1] == '.');
                }
            }
            label += 1;
        } else {
            assert(!is_domain_character(d@[i as int]));
            return false;
        }
        i += 1;
    }
    dotted
}

/// Whether `s` is acceptable as a subscriber email address.
fn acceptable_email(s: &str) -> (b: bool)
    ensures
        b == valid_email(s@),
{
    if s.unicode_len() > MAX_EMAIL_LENGTH {
        proof {
            if valid_email(s@) {
                lemma_email_length(s@);
            }
        }
        return false;
    }
    let chars = characters(s);
    let n = chars.len();
    match first_at(chars.as_slice()) {
        None => {
            proof {
                if valid_email(s@) {
                    lemma_email_holds_at(s@);
                }
            }
            false
        },
        Some(at) => {
            let local = slice_subrange(chars.as_slice(), 0, at);
            let domain = slice_subrange(chars.as_slice(), at + 1, n);
            proof {
                lemma_splits_at_first_at(s@, at as int);
            }
            acceptable_local_part(local) && acceptable_domain(domain)
        },
    }
}

/// A subscriber email address. Every value of this type holds an acceptable
/// address.
#[derive(Debug, PartialEq, Eq)]
pub struct SubscriberEmail {
    value: String,
}

impl View for SubscriberEmail {
    type V = Seq<char>;

    /// The text of the address.
    closed spec fn view(&self) -> Seq<char> {
        self.value@
    }
}

impl SubscriberEmail {
    #[verifier::type_invariant]
    spec fn well_formed(self) -> bool {
        valid_email(self.value@)
    }

    /// What [`SubscriberEmail::parse`] returns for `s`.
    pub closed spec fn parse_spec(s: String) -> Result<SubscriberEmail, ValidationError> {
        if valid_email(s@) {
            Ok(SubscriberEmail { value: s })
        } else {
            Err(ValidationError { raw: s, rule: Rule::MalformedEmail })
        }
    }

    /// `parse_spec` in terms of the text alone.
    pub proof fn lemma_parse_spec(s: String)
        ensures
            Self::parse_spec(s) is Ok <==> valid_email(s@),
            Self::parse_spec(s) matches Ok(email) ==> email@ == s@,
            Self::parse_spec(s) matches Err(e) ==> e.raw == s && e.rule == Rule::MalformedEmail,
    {
    }

    /// Accepts `s` as an address, or refuses it. An accepted address reads
    /// back as `s`, character for character; a refusal hands `s` back
    /// untouched.
    pub fn parse(s: String) -> (r: Result<SubscriberEmail, ValidationError>)
        ensures
            r == Self::parse_spec(s),
            r is Ok <==> valid_email(s@),
            r matches Ok(email) ==> email@ == s@,
            r matches Err(e) ==> e.raw == s && e.rule == Rule::MalformedEmail,
            s@.len() == 0 ==> r is Err,
            !s@.contains('@') ==> r is Err,
    {
        proof {
            if valid_email(s@) {
                lemma_email_holds_at(s@);
            }
        }
        if acceptable_email(s.as_str()) {
            Ok(SubscriberEmail { value: s })
        } else {
            Err(ValidationError { raw: s, rule: Rule::MalformedEmail })
        }
    }
}

impl AsRef<str> for SubscriberEmail {
    /// The text of the address.
    fn as_ref(&self) -> (s: &str)
        ensures
            s@ == self@,
            valid_email(s@),
    {
        proof {
            use_type_invariant(self);
        }
        self.value.as_str()
    }
}

/// Parsing equal text twice gives equal answers: either both calls accept it,
/// as addresses that read the same, or both refuse it, with the same text
/// handed back.
pub proof fn lemma_parse_is_deterministic(
    s1: String,
    s2: String,
    r1: Result<SubscriberEmail, ValidationError>,
    r2: Result<SubscriberEmail, ValidationError>,
)
    requires
        s1@ == s2@,
        call_ensures(SubscriberEmail::parse, (s1,), r1),
        call_ensures(SubscriberEmail::parse, (s2,), r2),
    ensures
        r1 is Ok <==> r2 is Ok,
        r1 is Ok ==> r1->Ok_0@ == r2->Ok_0@,
        r1 is Err ==> r1->Err_0.rule == r2->Err_0.rule && r1->Err_0.raw@ == r2->Err_0.raw@,
{
}

/// The text of an accepted address is accepted again, as an address that
/// reads the same.
pub proof fn lemma_parse_is_idempotent(
    s: String,
    email: SubscriberEmail,
    again: String,
    r: Result<SubscriberEmail, ValidationError>,
)
    requires
        call_ensures(SubscriberEmail::parse, (s,), Ok(email)),
        again@ == email@,
        call_ensures(SubscriberEmail::parse, (again,), r),
    ensures
        r is Ok,
        r->Ok_0@ == email@,
{
}

impl Clone for SubscriberEmail {
    fn clone(&self) -> (copy: Self)
        ensures
            copy@ == self@,
    {
        proof {
            use_type_invariant(self);
        }
        SubscriberEmail { value: self.value.clone() }
    }
}

} // verus!
