//! The stateful generator: a fixed shard id beside a mutable
//! (last-timestamp, sequence) pair, advanced by one transition per issued
//! id. The transition itself is a total, verified function of the state
//! and a clock reading; `next_id` drives it with real clock reads.

use vstd::prelude::*;
use crate::clock::get_fallback_random;
use crate::clock::normalize_timestamp;
use crate::clock::wall_clock_millis;
use crate::codec::CUSTOM_EPOCH;
use crate::codec::MAX_REL_TIMESTAMP;
use crate::codec::MAX_SEQUENCE;
use crate::codec::MAX_SHARD_ID;
use crate::codec::SHARD_ID_SHIFT;
use crate::codec::TIMESTAMP_SHIFT;
use crate::codec::encode;
use crate::codec::encode_spec;
use crate::codec::seq_of;
use crate::codec::shard_of;
use crate::codec::timestamp_of;
use crate::shard::derive_shard_id;

verus! {

/// How many fruitless clock reads `next_id` makes before it treats the
/// clock as stuck and advances to the next logical millisecond.
const RETRY_LIMIT: u64 = 16777216;

/// The mutable pair behind one generator: the last millisecond an id was
/// issued for, and how many ids the current millisecond has used beyond
/// its first.
struct GeneratorState {
    last_timestamp: u64,
    sequence: u64,
}

/// A generator: a fixed shard id and the state the issuing transition
/// advances. The raw state is never exposed; it changes only inside
/// `next_id_at`.
pub struct IdGenerator {
    shard_id: u16,
    state: GeneratorState,
}

/// Whether the transition from `(last, seq)` under clock reading `now`
/// issues an id: it does unless the reading still lies in the last used
/// millisecond and that millisecond's sequence numbers are exhausted.
pub open spec fn step_emits(last: u64, seq: u64, now: u64) -> bool {
    !(now == last && seq >= MAX_SEQUENCE)
}

/// The sequence value an issuing transition moves to: the next counter
/// value within a reused millisecond, zero in a fresh one.
pub open spec fn step_sequence(last: u64, seq: u64, now: u64) -> u64
    recommends
        seq < MAX_SEQUENCE || now != last,
{
    if now == last {
        ((seq + 1) as u64)
    } else {
        0
    }
}

/// The id an issuing transition returns.
pub open spec fn step_id(last: u64, seq: u64, shard: u64, now: u64) -> u64
    recommends
        CUSTOM_EPOCH <= now,
        step_emits(last, seq, now),
{
    encode_spec(now, shard, step_sequence(last, seq, now))
}

impl IdGenerator {
    /// The generator's fixed shard id.
    pub closed spec fn spec_shard_id(self) -> u16 {
        self.shard_id
    }

    /// The last millisecond this generator issued an id for, or zero if it
    /// has issued none.
    pub closed spec fn spec_last_timestamp(self) -> u64 {
        self.state.last_timestamp
    }

    /// The sequence counter within the last used millisecond.
    pub closed spec fn spec_sequence(self) -> u64 {
        self.state.sequence
    }

    /// Well-formedness: every field within its width, and the last used
    /// millisecond either the fresh zero or within the encodable range.
    pub open spec fn wf(self) -> bool {
        &&& self.spec_shard_id() <= MAX_SHARD_ID
        &&& self.spec_sequence() <= MAX_SEQUENCE
        &&& (self.spec_last_timestamp() == 0 || (CUSTOM_EPOCH <= self.spec_last_timestamp()
            && self.spec_last_timestamp() - CUSTOM_EPOCH <= MAX_REL_TIMESTAMP))
    }

    /// A generator whose shard id is derived automatically. The library
    /// itself reads no host identity, so the derivation here folds only
    /// clock jitter; a caller that can gather a hostname, a machine id or
    /// a process tag derives a shard with `derive_shard_id` and constructs
    /// the generator through `with_shard_id`.
    pub fn new() -> (g: Self)
        ensures
            g.wf(),
            g.spec_shard_id() <= MAX_SHARD_ID,
            g.spec_last_timestamp() == 0,
            g.spec_sequence() == 0,
            exists|entropy: u32|
                g.spec_shard_id() as u64 == crate::shard::derived_shard(
                    None,
                    None,
                    Seq::<u8>::empty(),
                    entropy,
                ),
    {
        let entropy = get_fallback_random();
        let empty_tag: Vec<u8> = Vec::new();
        let shard_id = derive_shard_id(None, None, empty_tag.as_slice(), entropy);
        proof {
            assert(shard_id as u64 == crate::shard::derived_shard(
                None,
                None,
                Seq::<u8>::empty(),
                entropy,
            ));
        }
        IdGenerator {
            shard_id,
            state: GeneratorState { last_timestamp: 0, sequence: 0 },
        }
    }

    /// A generator with an explicit shard id, masked to the 13-bit shard
    /// range: an id beyond the range is silently truncated, never
    /// rejected.
    pub fn with_shard_id(shard_id: u16) -> (g: Self)
        ensures
            g.wf(),
            g.spec_shard_id() == shard_id & (MAX_SHARD_ID as u16),
            g.spec_last_timestamp() == 0,
            g.spec_sequence() == 0,
    {
        let masked = shard_id & (MAX_SHARD_ID as u16);
        proof {
            assert(shard_id & 8191u16 <= 8191u16) by (bit_vector);
        }
        IdGenerator {
            shard_id: masked,
            state: GeneratorState { last_timestamp: 0, sequence: 0 },
        }
    }

    /// One issuing attempt under clock reading `now`: the whole critical
    /// section of id generation, as a function of the reading. Within a
    /// reused millisecond the sequence counter advances; in a fresh one it
    /// resets to zero; in a reused, exhausted millisecond nothing is
    /// issued and the state is unchanged, so the caller can wait the
    /// millisecond out.
    pub fn next_id_at(&mut self, now: u64) -> (r: Option<u64>)
        requires
            old(self).wf(),
            CUSTOM_EPOCH <= now,
            now - CUSTOM_EPOCH <= MAX_REL_TIMESTAMP,
        ensures
            final(self).wf(),
            final(self).spec_shard_id() == old(self).spec_shard_id(),
            r is Some == step_emits(
                old(self).spec_last_timestamp(),
                old(self).spec_sequence(),
                now,
            ),
            r is Some ==> {
                &&& final(self).spec_last_timestamp() == now
                &&& final(self).spec_sequence() == step_sequence(
                    old(self).spec_last_timestamp(),
                    old(self).spec_sequence(),
                    now,
                )
                &&& r->Some_0 == step_id(
                    old(self).spec_last_timestamp(),
                    old(self).spec_sequence(),
                    old(self).spec_shard_id() as u64,
                    now,
                )
                &&& timestamp_of(r->Some_0) == now
                &&& shard_of(r->Some_0) == old(self).spec_shard_id() as u64
                &&& seq_of(r->Some_0) == final(self).spec_sequence()
            },
            r is None ==> *final(self) == *old(self),
    {
        if now == self.state.last_timestamp {
            if self.state.sequence >= MAX_SEQUENCE {
                return None;
            }
            self.state.sequence = self.state.sequence + 1;
            let id = encode(now, self.shard_id, self.state.sequence as u16);
            Some(id)
        } else {
            self.state.last_timestamp = now;
            self.state.sequence = 0;
            let id = encode(now, self.shard_id, 0);
            Some(id)
        }
    }

    /// Issues the next id: reads the wall clock, and within a reused,
    /// exhausted millisecond waits for the clock to advance, retrying — a
    /// backoff that bounds throughput, not an error. Should the clock
    /// stand still through the whole retry budget, the generator treats it
    /// as a clock fault and advances to the next logical millisecond, so
    /// generation never fails. The returned id carries the generator's
    /// shard id and the state it moved to.
    pub fn next_id(&mut self) -> (id: u64)
        requires
            old(self).wf(),
        ensures
            final(self).wf(),
            final(self).spec_shard_id() == old(self).spec_shard_id(),
            CUSTOM_EPOCH <= final(self).spec_last_timestamp(),
            final(self).spec_last_timestamp() - CUSTOM_EPOCH <= MAX_REL_TIMESTAMP,
            id == encode_spec(
                final(self).spec_last_timestamp(),
                final(self).spec_shard_id() as u64,
                final(self).spec_sequence(),
            ),
            timestamp_of(id) == final(self).spec_last_timestamp(),
            shard_of(id) == final(self).spec_shard_id() as u64,
            seq_of(id) == final(self).spec_sequence(),
    {
        let mut fuel: u64 = RETRY_LIMIT;
        while fuel > 0
            invariant
                self.wf(),
                self.spec_shard_id() == old(self).spec_shard_id(),
            decreases fuel,
        {
            let now = normalize_timestamp(wall_clock_millis());
            match self.next_id_at(now) {
                Some(id) => {
                    return id;
                },
                None => {},
            }
            fuel = fuel - 1;
        }
        // The clock stood still across the whole budget: a fault. Advance
        // to the next logical millisecond instead of stalling forever.
        let last = self.state.last_timestamp;
        let forced: u64 = if CUSTOM_EPOCH <= last && last - CUSTOM_EPOCH < MAX_REL_TIMESTAMP {
            last + 1
        } else {
            CUSTOM_EPOCH
        };
        let r = self.next_id_at(forced);
        r.unwrap()
    }

    /// Issues the next id; a synonym of `next_id`.
    pub fn generate(&mut self) -> (id: u64)
        requires
            old(self).wf(),
        ensures
            final(self).wf(),
            final(self).spec_shard_id() == old(self).spec_shard_id(),
            id == encode_spec(
                final(self).spec_last_timestamp(),
                final(self).spec_shard_id() as u64,
                final(self).spec_sequence(),
            ),
            timestamp_of(id) == final(self).spec_last_timestamp(),
            shard_of(id) == final(self).spec_shard_id() as u64,
            seq_of(id) == final(self).spec_sequence(),
    {
        self.next_id()
    }

    /// The wall-clock millisecond an id carries: its timestamp field with
    /// the custom epoch added back.
    pub fn extract_timestamp(id: u64) -> (t: u64)
        ensures
            t == timestamp_of(id),
    {
        proof {
            assert(id >> 23 <= 0x1ff_ffff_ffff) by (bit_vector);
        }
        (id >> TIMESTAMP_SHIFT) + CUSTOM_EPOCH
    }

    /// The shard field of an id.
    pub fn extract_shard_id(id: u64) -> (shard: u16)
        ensures
            shard as u64 == shard_of(id),
    {
        proof {
            assert((id >> 10) & 8191 <= 8191) by (bit_vector);
        }
        ((id >> SHARD_ID_SHIFT) & MAX_SHARD_ID) as u16
    }

    /// The sequence field of an id.
    pub fn extract_sequence(id: u64) -> (seq: u16)
        ensures
            seq as u64 == seq_of(id),
    {
        proof {
            assert(id & 1023 <= 1023) by (bit_vector);
        }
        (id & MAX_SEQUENCE) as u16
    }

    /// The wall-clock millisecond an id carries; a synonym of
    /// `extract_timestamp`.
    pub fn parse_timestamp(id: u64) -> (t: u64)
        ensures
            t == timestamp_of(id),
    {
        Self::extract_timestamp(id)
    }

    /// The shard field of an id; a synonym of `extract_shard_id`.
    pub fn parse_shard_id(id: u64) -> (shard: u16)
        ensures
            shard as u64 == shard_of(id),
    {
        Self::extract_shard_id(id)
    }

    /// The sequence field of an id; a synonym of `extract_sequence`.
    pub fn parse_sequence(id: u64) -> (seq: u16)
        ensures
            seq as u64 == seq_of(id),
    {
        Self::extract_sequence(id)
    }

    /// The generator's shard id, fixed for its lifetime.
    pub fn shard_id(&self) -> (shard: u16)
        ensures
            shard == self.spec_shard_id(),
    {
        self.shard_id
    }
}

} // verus!
