use vstd::prelude::*;

use crate::{WRDE_BADCHAR, WRDE_BADVAL, WRDE_CMDSUB, WRDE_NOSPACE, WRDE_SYNTAX};

verus! {

/// The kinds of failure of a word expansion.
#[derive(Clone, Copy, Debug, PartialEq, Eq, Structural)]
pub enum WordexpErrorType {
    /// Illegal occurrence of newline or one of |, &, ;, <, >, (, ), {, }.
    BadChar,
    /// An undefined shell variable was referenced while `WRDE_UNDEF` was set.
    BadVal,
    /// Command substitution occurred while `WRDE_NOCMD` was set.
    CmdSub,
    /// Out of memory.
    NoSpace,
    /// Shell syntax error, such as unbalanced parentheses or unmatched quotes.
    Syntax,
    /// A status code that the native facility does not document.
    Unknown,
    /// The input cannot be handed to the native call: it holds a NUL byte.
    InvalidInput,
}

/// The error kind that a native status code stands for.
pub open spec fn error_kind(error_code: i32) -> WordexpErrorType {
    if error_code == WRDE_BADCHAR {
        WordexpErrorType::BadChar
    } else if error_code == WRDE_BADVAL {
        WordexpErrorType::BadVal
    } else if error_code == WRDE_CMDSUB {
        WordexpErrorType::CmdSub
    } else if error_code == WRDE_NOSPACE {
        WordexpErrorType::NoSpace
    } else if error_code == WRDE_SYNTAX {
        WordexpErrorType::Syntax
    } else {
        WordexpErrorType::Unknown
    }
}

impl WordexpErrorType {
    /// Converts a native status code into an error kind; codes outside the
    /// documented set become `Unknown`.
    pub fn from(error_code: i32) -> (r: Self)
        ensures
            r == error_kind(error_code),
    {
        match error_code {
            WRDE_BADCHAR => WordexpErrorType::BadChar,
            WRDE_BADVAL => WordexpErrorType::BadVal,
            WRDE_CMDSUB => WordexpErrorType::CmdSub,
            WRDE_NOSPACE => WordexpErrorType::NoSpace,
            WRDE_SYNTAX => WordexpErrorType::Syntax,
            _ => WordexpErrorType::Unknown,
        }
    }
}

/// The error returned by a failed word expansion.
#[derive(Clone, Copy, Debug, PartialEq, Eq, Structural)]
pub struct WordexpError {
    pub error_type: WordexpErrorType,
}

impl WordexpError {
    /// The error of the given kind.
    pub open spec fn new_spec(error_type: WordexpErrorType) -> Self {
        WordexpError { error_type }
    }

    pub fn new(error_type: WordexpErrorType) -> (r: Self)
        ensures
            r == Self::new_spec(error_type),
    {
        WordexpError { error_type }
    }
}

/// No documented status code maps to `Unknown`, and `InvalidInput` never
/// comes from a native status.
pub proof fn lemma_known_codes_stay_known(error_code: i32)
    ensures
        (error_code == WRDE_BADCHAR || error_code == WRDE_BADVAL || error_code == WRDE_CMDSUB
            || error_code == WRDE_NOSPACE || error_code == WRDE_SYNTAX) <==> error_kind(error_code)
            != WordexpErrorType::Unknown,
        error_kind(error_code) != WordexpErrorType::InvalidInput,
{
}

} // verus!
