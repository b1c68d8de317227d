//! Safe word expansion over the C `wordexp` facility.
//!
//! The library holds the logic around one native call: the flags and status
//! codes, the typed errors, the result handle with its bookkeeping, and the
//! bounded iterator over the expanded words. The native call itself, which
//! works on raw pointers, is made by the caller, who hands its status and a
//! plain snapshot of the native record to `wordexp_finish`.
use vstd::prelude::*;

pub mod error;
pub mod expand;
pub mod handle;

pub use error::{WordexpError, WordexpErrorType};
pub use expand::{check_input, wordexp_finish};
pub use handle::{Wordexp, WordexpIter, WordexpRecord};

verus! {

/// Insert `we_offs` initial empty slots in the word array; they are not counted in `we_wordc`.
pub const WRDE_DOOFFS: i32 = 1;

/// Append the words found to the array resulting from a previous call.
pub const WRDE_APPEND: i32 = 1 << 1;

/// Don't do command substitution.
pub const WRDE_NOCMD: i32 = 1 << 2;

/// The record comes from a previous successful call whose storage was not yet released: reuse it.
pub const WRDE_REUSE: i32 = 1 << 3;

/// Do not redirect stderr to /dev/null during command substitution.
pub const WRDE_SHOWERR: i32 = 1 << 4;

/// Consider it an error if an undefined shell variable is expanded.
pub const WRDE_UNDEF: i32 = 1 << 5;

/// Out of memory.
pub const WRDE_NOSPACE: i32 = 1;

/// Illegal occurrence of newline or one of |, &, ;, <, >, (, ), {, }.
pub const WRDE_BADCHAR: i32 = 2;

/// An undefined shell variable was referenced while `WRDE_UNDEF` was set.
pub const WRDE_BADVAL: i32 = 3;

/// Command substitution occurred while `WRDE_NOCMD` was set.
pub const WRDE_CMDSUB: i32 = 4;

/// Shell syntax error, such as unbalanced parentheses or unmatched quotes.
pub const WRDE_SYNTAX: i32 = 5;

} // verus!
