//! Why a piece of submitted text was refused.

use vstd::prelude::*;

verus! {

/// The rule that a refused text broke.
#[derive(Debug, Clone, Copy, PartialEq, Eq, Structural)]
pub enum Rule {
    /// Nothing is left of the name once surrounding whitespace is trimmed.
    EmptyName,
    /// The name has more characters than a name may have.
    NameTooLong,
    /// The name holds one of the characters that no name may hold.
    ForbiddenCharacter,
    /// The text is not an email address.
    MalformedEmail,
}

/// A refused text, kept as it was submitted, with the rule it broke.
#[derive(Debug, PartialEq, Eq)]
pub struct ValidationError {
    pub raw: String,
    pub rule: Rule,
}

} // verus!
