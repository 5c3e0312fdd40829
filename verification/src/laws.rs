//! The laws the generator's transition obeys: under in-range,
//! non-regressing clock readings, the ids one generator issues strictly
//! increase in issuing order, and so never repeat. A regressed clock is
//! left out by hypothesis: the scheme itself cannot order ids across a
//! backward jump.

use vstd::prelude::*;
use crate::codec::CUSTOM_EPOCH;
use crate::codec::MAX_REL_TIMESTAMP;
use crate::codec::MAX_SEQUENCE;
use crate::codec::MAX_SHARD_ID;
use crate::codec::encode_spec;
use crate::codec::lemma_sequence_order;
use crate::codec::lemma_timestamp_order;
use crate::generator::step_emits;
use crate::generator::step_id;
use crate::generator::step_sequence;

verus! {

/// Well-formedness of a generator state given as plain values: each field
/// within its width, the last used millisecond either the fresh zero or
/// within the encodable range.
pub open spec fn state_wf(last: u64, seq: u64, shard: u64) -> bool {
    &&& shard <= MAX_SHARD_ID
    &&& seq <= MAX_SEQUENCE
    &&& (last == 0 || (CUSTOM_EPOCH <= last && last - CUSTOM_EPOCH <= MAX_REL_TIMESTAMP))
}

/// The ids issued by running the transition from state `(last, seq)` over
/// the clock readings `nows`, in order. A reading that finds the current
/// millisecond exhausted issues nothing and leaves the state unchanged,
/// exactly as the generator's wait-and-retry does.
pub open spec fn run_ids(last: u64, seq: u64, shard: u64, nows: Seq<u64>) -> Seq<u64>
    decreases nows.len(),
{
    if nows.len() == 0 {
        Seq::empty()
    } else {
        let now = nows.first();
        if step_emits(last, seq, now) {
            seq![step_id(last, seq, shard, now)] + run_ids(
                now,
                step_sequence(last, seq, now),
                shard,
                nows.drop_first(),
            )
        } else {
            run_ids(last, seq, shard, nows.drop_first())
        }
    }
}

/// Clock readings all within the encodable range.
pub open spec fn readings_in_range(nows: Seq<u64>) -> bool {
    forall|i: int|
        0 <= i < nows.len() ==> CUSTOM_EPOCH <= #[trigger] nows[i] && nows[i] - CUSTOM_EPOCH
            <= MAX_REL_TIMESTAMP
}

/// Clock readings that never regress: non-decreasing in reading order.
pub open spec fn readings_monotonic(nows: Seq<u64>) -> bool {
    forall|i: int, j: int| 0 <= i <= j < nows.len() ==> nows[i] <= nows[j]
}

/// Clock readings that never fall behind a state's last used millisecond.
pub open spec fn readings_at_or_after(last: u64, nows: Seq<u64>) -> bool {
    forall|i: int| 0 <= i < nows.len() ==> last <= #[trigger] nows[i]
}

/// Monotonicity of one transition: under a clock reading that has not
/// regressed below the last used millisecond, the issued id is strictly
/// greater than the id the previous state encodes.
pub proof fn lemma_step_monotonic(last: u64, seq: u64, shard: u64, now: u64)
    requires
        CUSTOM_EPOCH <= last,
        last - CUSTOM_EPOCH <= MAX_REL_TIMESTAMP,
        CUSTOM_EPOCH <= now,
        now - CUSTOM_EPOCH <= MAX_REL_TIMESTAMP,
        last <= now,
        seq <= MAX_SEQUENCE,
        shard <= MAX_SHARD_ID,
        step_emits(last, seq, now),
    ensures
        encode_spec(last, shard, seq) < step_id(last, seq, shard, now),
{
    let lr = ((last - CUSTOM_EPOCH) as u64);
    let nr = ((now - CUSTOM_EPOCH) as u64);
    if now == last {
        lemma_sequence_order(lr, shard, seq, ((seq + 1) as u64));
    } else {
        lemma_timestamp_order(lr, nr, shard, seq, 0);
    }
}

/// Monotonicity over a whole run: under in-range, non-regressing clock
/// readings, the issued ids strictly increase in issuing order; and from
/// a state that has issued before, every id of the run exceeds the id
/// that state encodes.
pub proof fn lemma_run_monotonic(last: u64, seq: u64, shard: u64, nows: Seq<u64>)
    requires
        state_wf(last, seq, shard),
        readings_in_range(nows),
        readings_monotonic(nows),
        readings_at_or_after(last, nows),
    ensures
        forall|i: int, j: int|
            0 <= i < j < run_ids(last, seq, shard, nows).len() ==> run_ids(
                last,
                seq,
                shard,
                nows,
            )[i] < run_ids(last, seq, shard, nows)[j],
        CUSTOM_EPOCH <= last ==> forall|i: int|
            0 <= i < run_ids(last, seq, shard, nows).len() ==> encode_spec(last, shard, seq)
                < #[trigger] run_ids(last, seq, shard, nows)[i],
    decreases nows.len(),
{
    if nows.len() == 0 {
    } else {
        let now = nows.first();
        let tail = nows.drop_first();
        assert forall|i: int|
            0 <= i < tail.len() implies CUSTOM_EPOCH <= #[trigger] tail[i] && tail[i]
            - CUSTOM_EPOCH <= MAX_REL_TIMESTAMP && now <= tail[i] && last <= tail[i] by {
            assert(tail[i] == nows[i + 1]);
            assert(nows[0] <= nows[i + 1]);
        }
        assert forall|i: int, j: int| 0 <= i <= j < tail.len() implies tail[i] <= tail[j] by {
            assert(tail[i] == nows[i + 1] && tail[j] == nows[j + 1]);
            assert(nows[i + 1] <= nows[j + 1]);
        }
        if step_emits(last, seq, now) {
            let last2 = now;
            let seq2 = step_sequence(last, seq, now);
            let id0 = step_id(last, seq, shard, now);
            let rest = run_ids(last2, seq2, shard, tail);
            let run = run_ids(last, seq, shard, nows);
            assert(run == seq![id0] + rest);
            lemma_run_monotonic(last2, seq2, shard, tail);
            assert(id0 == encode_spec(last2, shard, seq2));
            assert forall|i: int, j: int| 0 <= i < j < run.len() implies run[i] < run[j] by {
                assert(run[j] == rest[j - 1]);
                if i == 0 {
                    assert(run[i] == id0);
                    assert(encode_spec(last2, shard, seq2) < rest[j - 1]);
                } else {
                    assert(run[i] == rest[i - 1]);
                }
            }
            if CUSTOM_EPOCH <= last {
                lemma_step_monotonic(last, seq, shard, now);
                assert forall|i: int|
                    0 <= i < run.len() implies encode_spec(last, shard, seq)
                    < #[trigger] run[i] by {
                    if i == 0 {
                        assert(run[i] == id0);
                    } else {
                        assert(run[i] == rest[i - 1]);
                        assert(encode_spec(last2, shard, seq2) < rest[i - 1]);
                    }
                }
            }
        } else {
            lemma_run_monotonic(last, seq, shard, tail);
            assert(run_ids(last, seq, shard, nows) == run_ids(last, seq, shard, tail));
        }
    }
}

/// Uniqueness over a whole run: under in-range, non-regressing clock
/// readings, no id is issued twice.
pub proof fn lemma_run_unique(last: u64, seq: u64, shard: u64, nows: Seq<u64>)
    requires
        state_wf(last, seq, shard),
        readings_in_range(nows),
        readings_monotonic(nows),
        readings_at_or_after(last, nows),
    ensures
        forall|i: int, j: int|
            0 <= i < run_ids(last, seq, shard, nows).len() && 0 <= j < run_ids(
                last,
                seq,
                shard,
                nows,
            ).len() && i != j ==> run_ids(last, seq, shard, nows)[i] != run_ids(
                last,
                seq,
                shard,
                nows,
            )[j],
{
    lemma_run_monotonic(last, seq, shard, nows);
    let run = run_ids(last, seq, shard, nows);
    assert forall|i: int, j: int|
        0 <= i < run.len() && 0 <= j < run.len() && i != j implies run[i] != run[j] by {
        if i < j {
            assert(run[i] < run[j]);
        } else {
            assert(run[j] < run[i]);
        }
    }
}

} // verus!
