//! The failure kinds of the initializer and of the record codec.

use vstd::prelude::*;

verus! {

/// Every way a call into this crate can fail. Each failure is terminal for
/// the call and leaves the account buffer byte-for-byte unchanged.
#[derive(Clone, Copy, Debug, PartialEq, Eq, Structural)]
pub enum TokenError {
    /// The target account's owner credential is not the invoking program's
    /// identity; checked first, before any buffer byte is trusted.
    WrongOwner,
    /// The host-supplied rent-exemption predicate is false; checked second.
    NotRentExempt,
    /// The record's initialization flag is already set; the one-shot
    /// transition has already happened.
    AlreadyInitialized,
    /// The buffer is shorter than the fixed 13-byte record layout.
    OutOfBounds,
}

} // verus!
