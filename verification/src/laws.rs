//! The guarantees of the id layout and of the generator, proved once and
//! for all: packed ids decode back to their fields, ids of one generator
//! grow strictly across successful calls, and generators with distinct
//! identities never produce the same id.

use vstd::prelude::*;

use crate::generator::EPOCH_MS;
use crate::generator::Snowflake;
use crate::generator::encode;
use crate::generator::field_datacenter;
use crate::generator::field_sequence;
use crate::generator::field_timestamp_delta;
use crate::generator::field_worker;
use crate::generator::generated;
use crate::generator::lemma_encode_bound;

verus! {

/// Round trip: unpacking a packed id recovers every in-range field exactly.
pub proof fn lemma_round_trip(t_delta: u64, dc: u64, w: u64, seq: u64)
    by (bit_vector)
    requires
        t_delta <= 0x1ff_ffff_ffff,
        dc <= 31,
        w <= 31,
        seq <= 0xfff,
    ensures
        field_timestamp_delta(encode(t_delta, dc, w, seq)) == t_delta,
        field_datacenter(encode(t_delta, dc, w, seq)) == dc,
        field_worker(encode(t_delta, dc, w, seq)) == w,
        field_sequence(encode(t_delta, dc, w, seq)) == seq,
{
}

/// With one identity, a lexicographically later (timestamp, sequence) pair
/// packs to a strictly larger word.
pub proof fn lemma_encode_monotonic(t1: u64, s1: u64, t2: u64, s2: u64, dc: u64, w: u64)
    by (bit_vector)
    requires
        t1 <= 0x1ff_ffff_ffff,
        t2 <= 0x1ff_ffff_ffff,
        s1 <= 0xfff,
        s2 <= 0xfff,
        dc <= 31,
        w <= 31,
        t1 < t2 || (t1 == t2 && s1 < s2),
    ensures
        encode(t1, dc, w, s1) < encode(t2, dc, w, s2),
{
}

/// Words below `2^63` keep their order, and their value, across the cast to
/// `i64`.
proof fn lemma_cast_keeps_order(a: u64, b: u64)
    by (bit_vector)
    requires
        a < b,
        b < 0x8000_0000_0000_0000,
    ensures
        (a as i64) < (b as i64),
{
}

/// The cast to `i64` tells words below `2^63` apart.
proof fn lemma_cast_injective(a: u64, b: u64)
    by (bit_vector)
    requires
        a < 0x8000_0000_0000_0000,
        b < 0x8000_0000_0000_0000,
        a as i64 == b as i64,
    ensures
        a == b,
{
}

/// A word below `2^63` comes back unchanged from the cast to `i64`.
proof fn lemma_cast_faithful(a: u64)
    by (bit_vector)
    requires
        a < 0x8000_0000_0000_0000,
    ensures
        (a as i64) as u64 == a,
        0 <= (a as i64),
{
}

/// A generated id is non-negative and decodes back to the state that issued
/// it: the wall-clock millisecond, the identity and the sequence counter.
pub proof fn lemma_generated_decodes(pre: Snowflake, post: Snowflake, id: i64)
    requires
        generated(pre, post, id),
    ensures
        0 <= id,
        field_timestamp_delta(id as u64) + EPOCH_MS == post.last_timestamp,
        field_datacenter(id as u64) == post.datacenter_id,
        field_worker(id as u64) == post.worker_id,
        field_sequence(id as u64) == post.sequence_id,
{
    let t = (post.last_timestamp - EPOCH_MS) as u64;
    lemma_encode_bound(t, post.datacenter_id, post.worker_id, post.sequence_id);
    lemma_cast_faithful(encode(t, post.datacenter_id, post.worker_id, post.sequence_id));
    lemma_round_trip(t, post.datacenter_id, post.worker_id, post.sequence_id);
}

/// Monotonicity, and with it uniqueness, across two consecutive successful
/// calls on one generator: the second id is strictly larger than the first.
pub proof fn lemma_ids_monotonic(a: Snowflake, b: Snowflake, c: Snowflake, id1: i64, id2: i64)
    requires
        generated(a, b, id1),
        generated(b, c, id2),
    ensures
        id1 < id2,
{
    let t1 = (b.last_timestamp - EPOCH_MS) as u64;
    let t2 = (c.last_timestamp - EPOCH_MS) as u64;
    lemma_encode_monotonic(t1, b.sequence_id, t2, c.sequence_id, c.datacenter_id, c.worker_id);
    lemma_encode_bound(t2, c.datacenter_id, c.worker_id, c.sequence_id);
    lemma_cast_keeps_order(
        encode(t1, c.datacenter_id, c.worker_id, b.sequence_id),
        encode(t2, c.datacenter_id, c.worker_id, c.sequence_id),
    );
}

/// Across two consecutive successful calls, the decoded timestamps never go
/// back, and within one millisecond the decoded sequence grows: the order of
/// ids mirrors the order of the calls field by field.
pub proof fn lemma_decoded_order(a: Snowflake, b: Snowflake, c: Snowflake, id1: i64, id2: i64)
    requires
        generated(a, b, id1),
        generated(b, c, id2),
    ensures
        id1 < id2,
        field_timestamp_delta(id1 as u64) <= field_timestamp_delta(id2 as u64),
        field_timestamp_delta(id1 as u64) == field_timestamp_delta(id2 as u64)
            ==> field_sequence(id1 as u64) < field_sequence(id2 as u64),
{
    lemma_ids_monotonic(a, b, c, id1, id2);
    lemma_generated_decodes(a, b, id1);
    lemma_generated_decodes(b, c, id2);
}

/// A run of a generator: `states` are the values it passed through and
/// `ids[i]` is what the call from `states[i]` to `states[i + 1]` returned.
pub open spec fn run(states: Seq<Snowflake>, ids: Seq<i64>) -> bool {
    &&& states.len() == ids.len() + 1
    &&& forall|i: int|
        0 <= i < ids.len() ==> #[trigger] generated(states[i], states[i + 1], ids[i])
}

/// Across a whole run of successful calls on one generator, an earlier id is
/// strictly smaller than a later one; in particular no id repeats.
pub proof fn lemma_run_monotonic(states: Seq<Snowflake>, ids: Seq<i64>, i: int, j: int)
    requires
        run(states, ids),
        0 <= i < j < ids.len(),
    ensures
        ids[i] < ids[j],
        ids[i] != ids[j],
    decreases j - i,
{
    assert(generated(states[j], states[j + 1], ids[j]));
    if i + 1 == j {
        assert(generated(states[i], states[i + 1], ids[i]));
        lemma_ids_monotonic(states[i], states[j], states[j + 1], ids[i], ids[j]);
    } else {
        lemma_run_monotonic(states, ids, i, j - 1);
        let k = j - 1;
        assert(generated(states[k], states[k + 1], ids[k]));
        lemma_ids_monotonic(states[k], states[j], states[j + 1], ids[k], ids[j]);
    }
}

/// Identities with disjoint bit fields never collide: whatever the timestamps
/// and sequences, words packed from different (datacenter, worker) pairs
/// differ.
pub proof fn lemma_identity_disjoint(
    t1: u64, dc1: u64, w1: u64, s1: u64,
    t2: u64, dc2: u64, w2: u64, s2: u64,
)
    requires
        t1 <= 0x1ff_ffff_ffff,
        t2 <= 0x1ff_ffff_ffff,
        dc1 <= 31,
        dc2 <= 31,
        w1 <= 31,
        w2 <= 31,
        s1 <= 0xfff,
        s2 <= 0xfff,
        dc1 != dc2 || w1 != w2,
    ensures
        encode(t1, dc1, w1, s1) != encode(t2, dc2, w2, s2),
{
    lemma_round_trip(t1, dc1, w1, s1);
    lemma_round_trip(t2, dc2, w2, s2);
}

/// Two generators whose identities differ: no pair of their successful calls
/// returns the same id.
pub proof fn lemma_cross_instance_unique(
    a1: Snowflake, b1: Snowflake, id1: i64,
    a2: Snowflake, b2: Snowflake, id2: i64,
)
    requires
        generated(a1, b1, id1),
        generated(a2, b2, id2),
        a1.datacenter_id != a2.datacenter_id || a1.worker_id != a2.worker_id,
    ensures
        id1 != id2,
{
    let t1 = (b1.last_timestamp - EPOCH_MS) as u64;
    let t2 = (b2.last_timestamp - EPOCH_MS) as u64;
    lemma_identity_disjoint(
        t1, b1.datacenter_id, b1.worker_id, b1.sequence_id,
        t2, b2.datacenter_id, b2.worker_id, b2.sequence_id,
    );
    lemma_encode_bound(t1, b1.datacenter_id, b1.worker_id, b1.sequence_id);
    lemma_encode_bound(t2, b2.datacenter_id, b2.worker_id, b2.sequence_id);
    if id1 == id2 {
        lemma_cast_injective(
            encode(t1, b1.datacenter_id, b1.worker_id, b1.sequence_id),
            encode(t2, b2.datacenter_id, b2.worker_id, b2.sequence_id),
        );
    }
}

} // verus!
