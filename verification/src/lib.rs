//! A minimal one-shot token-state initializer.
//!
//! The crate has two parts: a byte-exact codec for a fixed 13-byte token
//! record (`record`), and the one-shot initialization state machine that
//! guards that record behind ownership, funding and idempotency checks
//! (`init`). Both are specified over mathematical models of the record and
//! of the account buffer, and verified.

pub mod error;
pub mod init;
pub mod record;
