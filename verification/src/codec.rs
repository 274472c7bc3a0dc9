use vstd::prelude::*;
use vstd::bytes::{
    lemma_auto_spec_u64_to_from_le_bytes, spec_u64_from_le_bytes, spec_u64_to_le_bytes,
    u64_from_le_bytes, u64_to_le_bytes,
};
use vstd::slice::{slice_index_get, slice_subrange};
use crate::errors::WagerError;
use crate::state::{Identity, WagerRecord};

verus! {

/// Size of the persisted record: two identities, two direction flags, two
/// prices, the active flag, and the winner identity.
pub const RECORD_SIZE: usize = 115;

/// Flags persist as a single byte: one for true, zero for false.
pub open spec fn spec_bool_byte(b: bool) -> u8 {
    if b {
        1u8
    } else {
        0u8
    }
}

/// An identity persists as its four words, each little-endian.
pub open spec fn spec_identity_bytes(id: Identity) -> Seq<u8> {
    spec_u64_to_le_bytes(id.w0) + spec_u64_to_le_bytes(id.w1) + spec_u64_to_le_bytes(id.w2)
        + spec_u64_to_le_bytes(id.w3)
}

/// The persisted layout of a record, written back in full on every mutation.
pub open spec fn spec_encode(rec: WagerRecord) -> Seq<u8> {
    spec_identity_bytes(rec.party_a) + spec_identity_bytes(rec.party_b) + seq![
        spec_bool_byte(rec.party_a_direction),
        spec_bool_byte(rec.party_b_direction),
    ] + spec_u64_to_le_bytes(rec.entry_price) + spec_u64_to_le_bytes(rec.last_price) + seq![
        spec_bool_byte(rec.active),
    ] + spec_identity_bytes(rec.winner)
}

/// The identity whose four little-endian words start at `off`.
pub open spec fn spec_identity_at(s: Seq<u8>, off: int) -> Identity {
    Identity {
        w0: spec_u64_from_le_bytes(s.subrange(off, off + 8)),
        w1: spec_u64_from_le_bytes(s.subrange(off + 8, off + 16)),
        w2: spec_u64_from_le_bytes(s.subrange(off + 16, off + 24)),
        w3: spec_u64_from_le_bytes(s.subrange(off + 24, off + 32)),
    }
}

/// What decoding persisted bytes yields: a record exactly when the length
/// matches the layout and each flag byte is zero or one.
pub open spec fn spec_decode(s: Seq<u8>) -> Result<WagerRecord, WagerError> {
    if s.len() != RECORD_SIZE {
        Err(WagerError::MalformedInput)
    } else if s[64] != 0 && s[64] != 1 {
        Err(WagerError::MalformedInput)
    } else if s[65] != 0 && s[65] != 1 {
        Err(WagerError::MalformedInput)
    } else if s[82] != 0 && s[82] != 1 {
        Err(WagerError::MalformedInput)
    } else {
        Ok(
            WagerRecord {
                party_a: spec_identity_at(s, 0),
                party_b: spec_identity_at(s, 32),
                party_a_direction: s[64] == 1,
                party_b_direction: s[65] == 1,
                entry_price: spec_u64_from_le_bytes(s.subrange(66, 74)),
                last_price: spec_u64_from_le_bytes(s.subrange(74, 82)),
                active: s[82] == 1,
                winner: spec_identity_at(s, 83),
            },
        )
    }
}

/// Append one little-endian word.
fn push_u64(out: &mut Vec<u8>, x: u64)
    ensures
        final(out)@ == old(out)@ + spec_u64_to_le_bytes(x),
{
    let mut bytes = u64_to_le_bytes(x);
    out.append(&mut bytes);
}

/// Append one identity.
fn push_identity(out: &mut Vec<u8>, id: &Identity)
    ensures
        final(out)@ == old(out)@ + spec_identity_bytes(*id),
{
    push_u64(out, id.w0);
    push_u64(out, id.w1);
    push_u64(out, id.w2);
    push_u64(out, id.w3);
    proof {
        assert(out@ =~= old(out)@ + spec_identity_bytes(*id));
    }
}

/// Append one flag byte.
fn push_bool(out: &mut Vec<u8>, b: bool)
    ensures
        final(out)@ == old(out)@ + seq![spec_bool_byte(b)],
{
    if b {
        out.push(1u8);
    } else {
        out.push(0u8);
    }
    proof {
        assert(out@ =~= old(out)@ + seq![spec_bool_byte(b)]);
    }
}

/// Serialize a record into its persisted layout.
pub fn encode_record(rec: &WagerRecord) -> (out: Vec<u8>)
    ensures
        out@ == spec_encode(*rec),
        out@.len() == RECORD_SIZE,
{
    let mut out: Vec<u8> = Vec::new();
    push_identity(&mut out, &rec.party_a);
    push_identity(&mut out, &rec.party_b);
    push_bool(&mut out, rec.party_a_direction);
    push_bool(&mut out, rec.party_b_direction);
    push_u64(&mut out, rec.entry_price);
    push_u64(&mut out, rec.last_price);
    push_bool(&mut out, rec.active);
    push_identity(&mut out, &rec.winner);
    proof {
        lemma_auto_spec_u64_to_from_le_bytes();
        assert(out@ =~= spec_encode(*rec));
    }
    out
}

/// Read the little-endian word starting at `off`.
fn read_u64(data: &[u8], off: usize) -> (x: u64)
    requires
        off + 8 <= data@.len(),
        data@.len() <= usize::MAX,
    ensures
        x == spec_u64_from_le_bytes(data@.subrange(off as int, off as int + 8)),
{
    let field = slice_subrange(data, off, off + 8);
    u64_from_le_bytes(field)
}

/// Read the identity starting at `off`.
fn read_identity(data: &[u8], off: usize) -> (id: Identity)
    requires
        off + 32 <= data@.len(),
        data@.len() <= usize::MAX,
    ensures
        id == spec_identity_at(data@, off as int),
{
    Identity {
        w0: read_u64(data, off),
        w1: read_u64(data, off + 8),
        w2: read_u64(data, off + 16),
        w3: read_u64(data, off + 24),
    }
}

/// Deserialize a record from its persisted layout; anything that is not
/// exactly one well-formed record is malformed.
pub fn decode_record(data: &[u8]) -> (r: Result<WagerRecord, WagerError>)
    ensures
        r == spec_decode(data@),
{
    if data.len() != RECORD_SIZE {
        return Err(WagerError::MalformedInput);
    }
    let a_dir_byte = *slice_index_get(data, 64);
    let b_dir_byte = *slice_index_get(data, 65);
    let active_byte = *slice_index_get(data, 82);
    if a_dir_byte != 0 && a_dir_byte != 1 {
        Err(WagerError::MalformedInput)
    } else if b_dir_byte != 0 && b_dir_byte != 1 {
        Err(WagerError::MalformedInput)
    } else if active_byte != 0 && active_byte != 1 {
        Err(WagerError::MalformedInput)
    } else {
        Ok(
            WagerRecord {
                party_a: read_identity(data, 0),
                party_b: read_identity(data, 32),
                party_a_direction: a_dir_byte == 1,
                party_b_direction: b_dir_byte == 1,
                entry_price: read_u64(data, 66),
                last_price: read_u64(data, 74),
                active: active_byte == 1,
                winner: read_identity(data, 83),
            },
        )
    }
}

/// Decoding an encoded record yields the record back: persisting a record
/// in this layout loses nothing.
pub proof fn lemma_encode_decode_round_trip(rec: WagerRecord)
    ensures
        spec_decode(spec_encode(rec)) == Ok::<WagerRecord, WagerError>(rec),
{
    lemma_auto_spec_u64_to_from_le_bytes();
    let s = spec_encode(rec);
    assert(s.len() == RECORD_SIZE);
    assert(s.subrange(0, 8) =~= spec_u64_to_le_bytes(rec.party_a.w0));
    assert(s.subrange(8, 16) =~= spec_u64_to_le_bytes(rec.party_a.w1));
    assert(s.subrange(16, 24) =~= spec_u64_to_le_bytes(rec.party_a.w2));
    assert(s.subrange(24, 32) =~= spec_u64_to_le_bytes(rec.party_a.w3));
    assert(s.subrange(32, 40) =~= spec_u64_to_le_bytes(rec.party_b.w0));
    assert(s.subrange(40, 48) =~= spec_u64_to_le_bytes(rec.party_b.w1));
    assert(s.subrange(48, 56) =~= spec_u64_to_le_bytes(rec.party_b.w2));
    assert(s.subrange(56, 64) =~= spec_u64_to_le_bytes(rec.party_b.w3));
    assert(s[64] == spec_bool_byte(rec.party_a_direction));
    assert(s[65] == spec_bool_byte(rec.party_b_direction));
    assert(s.subrange(66, 74) =~= spec_u64_to_le_bytes(rec.entry_price));
    assert(s.subrange(74, 82) =~= spec_u64_to_le_bytes(rec.last_price));
    assert(s[82] == spec_bool_byte(rec.active));
    assert(s.subrange(83, 91) =~= spec_u64_to_le_bytes(rec.winner.w0));
    assert(s.subrange(91, 99) =~= spec_u64_to_le_bytes(rec.winner.w1));
    assert(s.subrange(99, 107) =~= spec_u64_to_le_bytes(rec.winner.w2));
    assert(s.subrange(107, 115) =~= spec_u64_to_le_bytes(rec.winner.w3));
    assert(spec_identity_at(s, 0) == rec.party_a);
    assert(spec_identity_at(s, 32) == rec.party_b);
    assert(spec_identity_at(s, 83) == rec.winner);
}

/// Encoding a decoded record yields the bytes back: the layout has no slack,
/// so every byte string that decodes is the encoding of exactly that record.
pub proof fn lemma_decode_encode_round_trip(s: Seq<u8>, rec: WagerRecord)
    requires
        spec_decode(s) == Ok::<WagerRecord, WagerError>(rec),
    ensures
        spec_encode(rec) == s,
{
    lemma_auto_spec_u64_to_from_le_bytes();
    let e = spec_encode(rec);
    assert(e.subrange(0, 8) =~= spec_u64_to_le_bytes(rec.party_a.w0));
    assert(e.subrange(8, 16) =~= spec_u64_to_le_bytes(rec.party_a.w1));
    assert(e.subrange(16, 24) =~= spec_u64_to_le_bytes(rec.party_a.w2));
    assert(e.subrange(24, 32) =~= spec_u64_to_le_bytes(rec.party_a.w3));
    assert(e.subrange(32, 40) =~= spec_u64_to_le_bytes(rec.party_b.w0));
    assert(e.subrange(40, 48) =~= spec_u64_to_le_bytes(rec.party_b.w1));
    assert(e.subrange(48, 56) =~= spec_u64_to_le_bytes(rec.party_b.w2));
    assert(e.subrange(56, 64) =~= spec_u64_to_le_bytes(rec.party_b.w3));
    assert(e[64] == spec_bool_byte(rec.party_a_direction));
    assert(e[65] == spec_bool_byte(rec.party_b_direction));
    assert(e.subrange(66, 74) =~= spec_u64_to_le_bytes(rec.entry_price));
    assert(e.subrange(74, 82) =~= spec_u64_to_le_bytes(rec.last_price));
    assert(e[82] == spec_bool_byte(rec.active));
    assert(e.subrange(83, 91) =~= spec_u64_to_le_bytes(rec.winner.w0));
    assert(e.subrange(91, 99) =~= spec_u64_to_le_bytes(rec.winner.w1));
    assert(e.subrange(99, 107) =~= spec_u64_to_le_bytes(rec.winner.w2));
    assert(e.subrange(107, 115) =~= spec_u64_to_le_bytes(rec.winner.w3));
    // Each word of the record came from the matching bytes of `s`, so the
    // re-encoded chunks are those bytes again.
    assert(spec_u64_to_le_bytes(rec.party_a.w0) == s.subrange(0, 8));
    assert(spec_u64_to_le_bytes(rec.party_a.w1) == s.subrange(8, 16));
    assert(spec_u64_to_le_bytes(rec.party_a.w2) == s.subrange(16, 24));
    assert(spec_u64_to_le_bytes(rec.party_a.w3) == s.subrange(24, 32));
    assert(spec_u64_to_le_bytes(rec.party_b.w0) == s.subrange(32, 40));
    assert(spec_u64_to_le_bytes(rec.party_b.w1) == s.subrange(40, 48));
    assert(spec_u64_to_le_bytes(rec.party_b.w2) == s.subrange(48, 56));
    assert(spec_u64_to_le_bytes(rec.party_b.w3) == s.subrange(56, 64));
    assert(e[64] == s[64]);
    assert(e[65] == s[65]);
    assert(spec_u64_to_le_bytes(rec.entry_price) == s.subrange(66, 74));
    assert(spec_u64_to_le_bytes(rec.last_price) == s.subrange(74, 82));
    assert(e[82] == s[82]);
    assert(spec_u64_to_le_bytes(rec.winner.w0) == s.subrange(83, 91));
    assert(spec_u64_to_le_bytes(rec.winner.w1) == s.subrange(91, 99));
    assert(spec_u64_to_le_bytes(rec.winner.w2) == s.subrange(99, 107));
    assert(spec_u64_to_le_bytes(rec.winner.w3) == s.subrange(107, 115));
    assert(e =~= s);
}

} // verus!
