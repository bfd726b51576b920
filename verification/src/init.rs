//! The one-shot initialization state machine.
//!
//! A single operation takes the account's owner credential, the invoking
//! program's identity, the account's raw byte buffer and the host-computed
//! rent-exemption predicate, and performs the transition from uninitialized
//! to initialized at most once, checking its preconditions in a fixed order
//! and leaving the buffer untouched on every failure.

use crate::error::TokenError;
use crate::record::{
    bytes_of_record, spec_symbol, AresToken, RecordModel, RECORD_LEN, TOTAL_SUPPLY,
};
use vstd::prelude::*;

verus! {

broadcast use vstd::array::group_array_axioms;

/// The record an account holds after successful initialization: flag set,
/// the fixed total supply, the fixed `"ARES"` ticker.
pub open spec fn initialized_record() -> RecordModel {
    RecordModel { initialized: true, supply: TOTAL_SUPPLY, symbol: spec_symbol() }
}

/// The outcome of `initialize`, as a function of its inputs. The checks run
/// in a fixed order and the first failing one decides: ownership first, then
/// funding, then the buffer-length guard, then the one-shot flag.
pub open spec fn init_result(
    owner: Seq<u8>,
    program: Seq<u8>,
    buf: Seq<u8>,
    is_rent_exempt: bool,
) -> Result<(), TokenError> {
    if owner != program {
        Err(TokenError::WrongOwner)
    } else if !is_rent_exempt {
        Err(TokenError::NotRentExempt)
    } else if buf.len() < RECORD_LEN {
        Err(TokenError::OutOfBounds)
    } else if buf[0] != 0 {
        Err(TokenError::AlreadyInitialized)
    } else {
        Ok(())
    }
}

/// Byte-wise equality of two 32-byte identity credentials.
pub fn ids_equal(a: &[u8; 32], b: &[u8; 32]) -> (r: bool)
    ensures
        r == (a@ == b@),
{
    let mut i: usize = 0;
    while i < 32
        invariant
            0 <= i <= 32,
            forall|j: int| 0 <= j < i ==> a@[j] == b@[j],
        decreases 32 - i,
    {
        if a[i] != b[i] {
            return false;
        }
        i += 1;
    }
    proof {
        assert(a@ =~= b@);
    }
    true
}

/// The one-shot setup transition. Succeeds exactly when the owner credential
/// matches the program identity, the account is rent exempt, the buffer holds
/// at least the 13-byte record, and the record's flag is still clear; it then
/// overwrites the record window with the initialized record and leaves the
/// rest of the buffer untouched. On every failure the buffer is unchanged
/// byte for byte.
pub fn initialize(
    account_owner_id: &[u8; 32],
    program_id: &[u8; 32],
    account_buffer: &mut Vec<u8>,
    is_rent_exempt: bool,
) -> (r: Result<(), TokenError>)
    ensures
        r == init_result(account_owner_id@, program_id@, old(account_buffer)@, is_rent_exempt),
        r is Err ==> final(account_buffer)@ == old(account_buffer)@,
        r is Ok ==> final(account_buffer)@ == bytes_of_record(initialized_record()) + old(
            account_buffer,
        )@.skip(RECORD_LEN as int),
{
    if !ids_equal(account_owner_id, program_id) {
        return Err(TokenError::WrongOwner);
    }
    if !is_rent_exempt {
        return Err(TokenError::NotRentExempt);
    }
    let mut record = match AresToken::unpack_from_slice(account_buffer.as_slice()) {
        Ok(t) => t,
        Err(e) => {
            return Err(e);
        },
    };
    if record.is_initialized() {
        return Err(TokenError::AlreadyInitialized);
    }
    record.is_initialized = true;
    record.supply = TOTAL_SUPPLY;
    record.ares_symbol = [0x41, 0x52, 0x45, 0x53];
    proof {
        assert(record@.symbol =~= spec_symbol());
    }
    match record.pack_into_slice(account_buffer) {
        Ok(u) => Ok(u),
        Err(e) => Err(e),
    }
}

/// One-shot law: on a matching owner, a rent-exempt account and a buffer
/// whose flag is still clear, initialization succeeds, and a second call on
/// the buffer the success produced fails with `AlreadyInitialized` (so, by
/// the no-mutation-on-failure contract of `initialize`, the buffer after the
/// second call equals the buffer after the first).
pub proof fn lemma_one_shot(owner: Seq<u8>, program: Seq<u8>, buf: Seq<u8>)
    requires
        owner == program,
        buf.len() >= RECORD_LEN,
        buf[0] == 0,
    ensures
        init_result(owner, program, buf, true) == Ok::<(), TokenError>(()),
        init_result(
            owner,
            program,
            bytes_of_record(initialized_record()) + buf.skip(RECORD_LEN as int),
            true,
        ) == Err::<(), TokenError>(TokenError::AlreadyInitialized),
{
    crate::record::lemma_encoded_len(initialized_record());
    let buf1 = bytes_of_record(initialized_record()) + buf.skip(RECORD_LEN as int);
    assert(buf1[0] == 1);
    assert(buf1.len() >= RECORD_LEN);
}

/// Authorization-precedence law: when the ownership check fails, the
/// reported error is `WrongOwner`, whatever the funding predicate and the
/// buffer say — in particular it is never `NotRentExempt`, even when the
/// funding check would fail too.
pub proof fn lemma_owner_check_first(owner: Seq<u8>, program: Seq<u8>, buf: Seq<u8>)
    requires
        owner != program,
    ensures
        init_result(owner, program, buf, false) == Err::<(), TokenError>(TokenError::WrongOwner),
        init_result(owner, program, buf, true) == Err::<(), TokenError>(TokenError::WrongOwner),
{
}

} // verus!
