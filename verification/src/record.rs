//! The persisted token record and its byte-exact codec.
//!
//! The serialized form is exactly 13 bytes: one flag byte, eight bytes of
//! little-endian supply, four verbatim symbol bytes, in that order, with no
//! padding. The codec never touches a byte past that window.

use crate::error::TokenError;
use vstd::bytes::{
    lemma_auto_spec_u64_to_from_le_bytes, spec_u64_from_le_bytes, spec_u64_to_le_bytes,
    u64_from_le_bytes, u64_to_le_bytes,
};
use vstd::prelude::*;
use vstd::slice::{slice_index_get, slice_subrange};

verus! {

broadcast use vstd::array::group_array_axioms;

/// Serialized record size in bytes: 1 flag + 8 supply + 4 symbol.
pub const RECORD_LEN: usize = 13;

/// The fixed total supply written by initialization: 40 million tokens with
/// 6 implied decimal places. Compiled-in policy, not a parameter.
pub const TOTAL_SUPPLY: u64 = 40_000_000 * 1_000_000;

/// The persisted token state. Before initialization the supply and symbol
/// are whatever bytes the backing buffer happens to hold; no invariant is
/// assumed about them.
///
/// The derived `PartialEq` is for unverified callers and tests only; no
/// contract in this crate speaks of it.
#[derive(Debug, PartialEq)]
pub struct AresToken {
    pub is_initialized: bool,
    pub supply: u64,
    pub ares_symbol: [u8; 4],
}

/// The mathematical model of a record: the flag, the supply, and the symbol
/// as a sequence of bytes.
#[verifier::ext_equal]
pub ghost struct RecordModel {
    pub initialized: bool,
    pub supply: u64,
    pub symbol: Seq<u8>,
}

impl View for AresToken {
    type V = RecordModel;

    open spec fn view(&self) -> RecordModel {
        RecordModel {
            initialized: self.is_initialized,
            supply: self.supply,
            symbol: self.ares_symbol@,
        }
    }
}

/// A model is well formed when its symbol has the fixed four bytes; every
/// `AresToken` value's view is.
pub open spec fn record_wf(m: RecordModel) -> bool {
    m.symbol.len() == 4
}

/// The four ASCII bytes of the fixed ticker, `"ARES"`.
pub open spec fn spec_symbol() -> Seq<u8> {
    seq![0x41u8, 0x52u8, 0x45u8, 0x53u8]
}

/// What decoding reads out of a buffer's first 13 bytes: byte 0 is the flag
/// (any nonzero value counts as initialized), bytes 1..9 the little-endian
/// supply, bytes 9..13 the symbol verbatim.
pub open spec fn record_of_bytes(s: Seq<u8>) -> RecordModel
    recommends
        s.len() >= RECORD_LEN,
{
    RecordModel {
        initialized: s[0] != 0,
        supply: spec_u64_from_le_bytes(s.subrange(1, 9)),
        symbol: s.subrange(9, 13),
    }
}

/// What encoding writes: the flag as exactly 0 or 1, the supply little
/// endian, the symbol verbatim; 13 bytes in all when the model is well
/// formed.
pub open spec fn bytes_of_record(m: RecordModel) -> Seq<u8> {
    seq![if m.initialized { 1u8 } else { 0u8 }] + spec_u64_to_le_bytes(m.supply) + m.symbol
}

impl AresToken {
    /// True once the one-shot setup has run on this record.
    pub fn is_initialized(&self) -> (r: bool)
        ensures
            r == self@.initialized,
    {
        self.is_initialized
    }

    /// Decodes a record from the first 13 bytes of `src`; fails, reading
    /// nothing, when the buffer is shorter than the record layout.
    pub fn unpack_from_slice(src: &[u8]) -> (r: Result<AresToken, TokenError>)
        ensures
            src@.len() >= RECORD_LEN ==> (r matches Ok(t) && t@ == record_of_bytes(src@)),
            src@.len() < RECORD_LEN ==> r == Err::<AresToken, TokenError>(TokenError::OutOfBounds),
    {
        if src.len() < RECORD_LEN {
            return Err(TokenError::OutOfBounds);
        }
        let is_initialized = *slice_index_get(src, 0) != 0;
        let supply = u64_from_le_bytes(slice_subrange(src, 1, 9));
        let ares_symbol: [u8; 4] = [
            *slice_index_get(src, 9),
            *slice_index_get(src, 10),
            *slice_index_get(src, 11),
            *slice_index_get(src, 12),
        ];
        proof {
            assert(ares_symbol@ =~= src@.subrange(9, 13));
        }
        Ok(AresToken { is_initialized, supply, ares_symbol })
    }

    /// Encodes this record into the first 13 bytes of `dst`, leaving every
    /// byte past that window untouched; fails, writing nothing, when the
    /// buffer is shorter than the record layout.
    pub fn pack_into_slice(&self, dst: &mut Vec<u8>) -> (r: Result<(), TokenError>)
        ensures
            old(dst)@.len() < RECORD_LEN ==> (r == Err::<(), TokenError>(TokenError::OutOfBounds)
                && final(dst)@ == old(dst)@),
            old(dst)@.len() >= RECORD_LEN ==> (r == Ok::<(), TokenError>(())
                && final(dst)@ == bytes_of_record(self@) + old(dst)@.skip(RECORD_LEN as int)),
    {
        if dst.len() < RECORD_LEN {
            return Err(TokenError::OutOfBounds);
        }
        proof {
            lemma_auto_spec_u64_to_from_le_bytes();
        }
        dst[0] = if self.is_initialized {
            1
        } else {
            0
        };
        let supply_bytes = u64_to_le_bytes(self.supply);
        dst[1] = supply_bytes[0];
        dst[2] = supply_bytes[1];
        dst[3] = supply_bytes[2];
        dst[4] = supply_bytes[3];
        dst[5] = supply_bytes[4];
        dst[6] = supply_bytes[5];
        dst[7] = supply_bytes[6];
        dst[8] = supply_bytes[7];
        dst[9] = self.ares_symbol[0];
        dst[10] = self.ares_symbol[1];
        dst[11] = self.ares_symbol[2];
        dst[12] = self.ares_symbol[3];
        proof {
            assert(dst@ =~= bytes_of_record(self@) + old(dst)@.skip(RECORD_LEN as int));
        }
        Ok(())
    }
}

/// Layout law: a well-formed record model serializes to exactly the 13
/// bytes of the fixed record window, never more, never fewer.
pub proof fn lemma_encoded_len(m: RecordModel)
    requires
        record_wf(m),
    ensures
        bytes_of_record(m).len() == RECORD_LEN,
{
    lemma_auto_spec_u64_to_from_le_bytes();
}

/// Round-trip law: decoding what encoding produced gives the record back,
/// for every record value.
pub proof fn lemma_record_round_trip(r: AresToken)
    ensures
        record_of_bytes(bytes_of_record(r@)) == r@,
{
    lemma_model_round_trip(r@);
}

/// Round-trip law over models: encoding then decoding is the identity on
/// every well-formed record model.
pub proof fn lemma_model_round_trip(m: RecordModel)
    requires
        record_wf(m),
    ensures
        record_of_bytes(bytes_of_record(m)) == m,
{
    lemma_auto_spec_u64_to_from_le_bytes();
    let s = bytes_of_record(m);
    assert(s.subrange(1, 9) =~= spec_u64_to_le_bytes(m.supply));
    assert(s.subrange(9, 13) =~= m.symbol);
    assert(record_of_bytes(s) =~= m);
}

/// Byte round-trip law: re-encoding a decoded 13-byte buffer reproduces it
/// bit for bit, provided its flag byte is the canonical 0 or 1 that this
/// codec itself writes (decoding is deliberately lenient and accepts any
/// nonzero flag, so other flag values re-encode to 1).
pub proof fn lemma_bytes_round_trip(s: Seq<u8>)
    requires
        s.len() == RECORD_LEN,
        s[0] == 0 || s[0] == 1,
    ensures
        bytes_of_record(record_of_bytes(s)) == s,
{
    lemma_auto_spec_u64_to_from_le_bytes();
    assert(spec_u64_to_le_bytes(spec_u64_from_le_bytes(s.subrange(1, 9))) == s.subrange(1, 9));
    assert(bytes_of_record(record_of_bytes(s)) =~= s);
}

} // verus!
