//! The identifier encoding scheme: a 64-bit word packing, MSB to LSB, a
//! 41-bit millisecond timestamp (measured from a custom epoch), a 13-bit
//! shard id and a 10-bit per-millisecond sequence counter.

use vstd::prelude::*;

verus! {

/// Milliseconds between the Unix epoch and the custom epoch
/// (2024-01-01T00:00:00Z) from which the timestamp field counts.
pub const CUSTOM_EPOCH: u64 = 1704067200000;

/// Largest shard id: the shard field is 13 bits wide.
pub const MAX_SHARD_ID: u64 = 8191;

/// Largest sequence value: the sequence field is 10 bits wide.
pub const MAX_SEQUENCE: u64 = 1023;

/// Largest epoch-relative timestamp: the timestamp field is 41 bits wide.
pub const MAX_REL_TIMESTAMP: u64 = 0x1ff_ffff_ffff;

/// How far the shard field is shifted: past the 10 sequence bits.
pub const SHARD_ID_SHIFT: u64 = 10;

/// How far the timestamp field is shifted: past the shard and sequence bits.
pub const TIMESTAMP_SHIFT: u64 = 23;

/// The packed word for a timestamp already measured relative to the custom
/// epoch. The fields do not overlap as long as each is within its width.
pub open spec fn encode_rel_spec(t_rel: u64, shard: u64, seq: u64) -> u64 {
    (t_rel << 23) | (shard << 10) | seq
}

/// The packed word for a wall-clock millisecond `t` at or after the custom
/// epoch.
pub open spec fn encode_spec(t: u64, shard: u64, seq: u64) -> u64
    recommends
        CUSTOM_EPOCH <= t,
{
    encode_rel_spec(((t - CUSTOM_EPOCH) as u64), shard, seq)
}

/// The epoch-relative timestamp field of an id.
pub open spec fn rel_timestamp_of(id: u64) -> u64 {
    id >> 23
}

/// The wall-clock millisecond an id carries: its timestamp field with the
/// custom epoch added back.
pub open spec fn timestamp_of(id: u64) -> u64 {
    (((id >> 23) + CUSTOM_EPOCH) as u64)
}

/// The shard field of an id.
pub open spec fn shard_of(id: u64) -> u64 {
    (id >> 10) & 8191
}

/// The sequence field of an id.
pub open spec fn seq_of(id: u64) -> u64 {
    id & 1023
}

/// Packs a triple into an id. The caller keeps each field within its width;
/// this is pure arithmetic with no bounds checks of its own.
pub fn encode(timestamp_ms: u64, shard_id: u16, sequence: u16) -> (id: u64)
    requires
        CUSTOM_EPOCH <= timestamp_ms,
        timestamp_ms - CUSTOM_EPOCH <= MAX_REL_TIMESTAMP,
        shard_id <= MAX_SHARD_ID,
        sequence <= MAX_SEQUENCE,
    ensures
        id == encode_spec(timestamp_ms, shard_id as u64, sequence as u64),
        timestamp_of(id) == timestamp_ms,
        shard_of(id) == shard_id as u64,
        seq_of(id) == sequence as u64,
{
    let t_rel = timestamp_ms - CUSTOM_EPOCH;
    let id = (t_rel << TIMESTAMP_SHIFT) | ((shard_id as u64) << SHARD_ID_SHIFT) | (sequence as u64);
    proof {
        lemma_round_trip(timestamp_ms, shard_id as u64, sequence as u64);
    }
    id
}

/// Each field of a packed word reads back exactly, for every triple whose
/// fields are within their widths.
pub proof fn lemma_encode_rel_round_trip(t_rel: u64, shard: u64, seq: u64)
    requires
        t_rel <= MAX_REL_TIMESTAMP,
        shard <= MAX_SHARD_ID,
        seq <= MAX_SEQUENCE,
    ensures
        rel_timestamp_of(encode_rel_spec(t_rel, shard, seq)) == t_rel,
        shard_of(encode_rel_spec(t_rel, shard, seq)) == shard,
        seq_of(encode_rel_spec(t_rel, shard, seq)) == seq,
{
    assert((((t_rel << 23) | (shard << 10) | seq) >> 23) == t_rel
        && ((((t_rel << 23) | (shard << 10) | seq) >> 10) & 8191) == shard
        && (((t_rel << 23) | (shard << 10) | seq) & 1023) == seq) by (bit_vector)
        requires
            t_rel <= 0x1ff_ffff_ffff,
            shard <= 8191,
            seq <= 1023,
    ;
}

/// Round trip over wall-clock time: decoding recovers the original triple,
/// for every valid triple.
pub proof fn lemma_round_trip(t: u64, shard: u64, seq: u64)
    requires
        CUSTOM_EPOCH <= t,
        t - CUSTOM_EPOCH <= MAX_REL_TIMESTAMP,
        shard <= MAX_SHARD_ID,
        seq <= MAX_SEQUENCE,
    ensures
        timestamp_of(encode_spec(t, shard, seq)) == t,
        shard_of(encode_spec(t, shard, seq)) == shard,
        seq_of(encode_spec(t, shard, seq)) == seq,
{
    lemma_encode_rel_round_trip(((t - CUSTOM_EPOCH) as u64), shard, seq);
}

/// Within one millisecond, a larger sequence packs to a numerically larger
/// id.
pub proof fn lemma_sequence_order(t_rel: u64, shard: u64, q1: u64, q2: u64)
    requires
        t_rel <= MAX_REL_TIMESTAMP,
        shard <= MAX_SHARD_ID,
        q1 < q2,
        q2 <= MAX_SEQUENCE,
    ensures
        encode_rel_spec(t_rel, shard, q1) < encode_rel_spec(t_rel, shard, q2),
{
    assert(((t_rel << 23) | (shard << 10) | q1) < ((t_rel << 23) | (shard << 10) | q2))
        by (bit_vector)
        requires
            t_rel <= 0x1ff_ffff_ffff,
            shard <= 8191,
            q1 < q2,
            q2 <= 1023,
    ;
}

/// A later millisecond packs to a numerically larger id, whatever the two
/// sequence values: the timestamp field dominates the low bits.
pub proof fn lemma_timestamp_order(t1: u64, t2: u64, shard: u64, q1: u64, q2: u64)
    requires
        t1 < t2,
        t2 <= MAX_REL_TIMESTAMP,
        shard <= MAX_SHARD_ID,
        q1 <= MAX_SEQUENCE,
        q2 <= MAX_SEQUENCE,
    ensures
        encode_rel_spec(t1, shard, q1) < encode_rel_spec(t2, shard, q2),
{
    assert(((t1 << 23) | (shard << 10) | q1) < ((t2 << 23) | (shard << 10) | q2))
        by (bit_vector)
        requires
            t1 < t2,
            t2 <= 0x1ff_ffff_ffff,
            shard <= 8191,
            q1 <= 1023,
            q2 <= 1023,
    ;
}

} // verus!
