//! Distributed unique-identifier generation in the style of Twitter
//! Snowflake: 64-bit, time-sortable ids produced without coordination
//! between nodes. An id packs a 41-bit millisecond timestamp measured
//! from a custom epoch, a 13-bit shard id and a 10-bit per-millisecond
//! sequence counter; numeric order on ids follows issuing order per
//! generator as long as the clock does not regress.

pub mod clock;
pub mod codec;
pub mod generator;
pub mod laws;
pub mod shard;

pub use clock::get_fallback_random;
pub use codec::CUSTOM_EPOCH;
pub use codec::MAX_REL_TIMESTAMP;
pub use codec::MAX_SEQUENCE;
pub use codec::MAX_SHARD_ID;
pub use generator::IdGenerator;
pub use shard::derive_shard_id;

use vstd::prelude::*;
use crate::codec::encode_spec;
use crate::codec::seq_of;
use crate::codec::shard_of;
use crate::codec::timestamp_of;

verus! {

/// Issues the next id from the given generator. The id carries the
/// generator's shard id and the state the generator moved to.
pub fn generate(generator: &mut IdGenerator) -> (id: u64)
    requires
        old(generator).wf(),
    ensures
        final(generator).wf(),
        final(generator).spec_shard_id() == old(generator).spec_shard_id(),
        id == encode_spec(
            final(generator).spec_last_timestamp(),
            final(generator).spec_shard_id() as u64,
            final(generator).spec_sequence(),
        ),
        timestamp_of(id) == final(generator).spec_last_timestamp(),
        shard_of(id) == final(generator).spec_shard_id() as u64,
        seq_of(id) == final(generator).spec_sequence(),
{
    generator.next_id()
}

/// The wall-clock millisecond an id carries: its timestamp field with the
/// custom epoch added back.
pub fn parse_timestamp(id: u64) -> (t: u64)
    ensures
        t == timestamp_of(id),
{
    IdGenerator::extract_timestamp(id)
}

/// The shard field of an id.
pub fn parse_shard_id(id: u64) -> (shard: u16)
    ensures
        shard as u64 == shard_of(id),
{
    IdGenerator::extract_shard_id(id)
}

/// The sequence field of an id.
pub fn parse_sequence(id: u64) -> (seq: u16)
    ensures
        seq as u64 == seq_of(id),
{
    IdGenerator::extract_sequence(id)
}

} // verus!
