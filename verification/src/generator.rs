//! The id generator: bit layout, clock reconciliation and encoding.
//!
//! An id is one 64-bit integer holding four fields:
//!
//! ```text
//!  bit 63    bits 62..22           bits 21..17      bits 16..12   bits 11..0
//!  sign 0    timestamp - epoch     datacenter id    worker id     sequence
//! ```
//!
//! The timestamp field holds wall-clock milliseconds relative to a fixed
//! epoch; the sequence field disambiguates ids issued within one millisecond.

use vstd::prelude::*;
use vstd::pervasive::unreached;

use crate::clock;

verus! {

/// Bits reserved for the per-millisecond sequence counter.
pub const SEQUENCE_BITS: u64 = 12;
/// Bits reserved for the worker id.
pub const WORKER_BITS: u64 = 5;
/// Bits reserved for the datacenter id.
pub const DATACENTER_BITS: u64 = 5;

/// The worker id field starts right above the sequence field.
pub const WORKER_SHIFT: u64 = 12;
/// The datacenter id field starts right above the worker id field.
pub const DATACENTER_SHIFT: u64 = 17;
/// The timestamp field starts right above the datacenter id field.
pub const TIMESTAMP_SHIFT: u64 = 22;

/// Largest sequence value before the counter wraps: `2^SEQUENCE_BITS - 1`.
pub const SEQUENCE_MASK: u64 = 0xfff;
/// Largest worker id that fits its field: `2^WORKER_BITS - 1`.
pub const MAX_WORKER_ID: u64 = 31;
/// Largest datacenter id that fits its field: `2^DATACENTER_BITS - 1`.
pub const MAX_DATACENTER_ID: u64 = 31;

/// The fixed reference instant subtracted from every timestamp before
/// encoding, as milliseconds since the Unix epoch.
pub const EPOCH_MS: u64 = 1541488102;

/// Largest epoch-relative timestamp that fits its field. The field has
/// `64 - TIMESTAMP_SHIFT - 1` = 41 bits once the sign bit of the `i64` id is
/// kept clear, so this is `2^41 - 1`.
pub const MAX_TIMESTAMP_DELTA: u64 = 0x1ff_ffff_ffff;

/// Largest wall-clock millisecond whose epoch-relative value still fits the
/// timestamp field.
pub const MAX_TIMESTAMP_MS: u64 = EPOCH_MS + MAX_TIMESTAMP_DELTA;

/// Why a call failed.
#[derive(Debug, Clone, Copy, PartialEq, Eq, Structural)]
pub enum IdError {
    /// The wall clock reported a time earlier than the last generation time.
    /// Generating an id anyway could repeat or reorder already-issued ids,
    /// so the call is refused; `regression_ms` is the size of the jump.
    ClockMovedBackwards { regression_ms: u64 },
    /// A worker or datacenter id handed to the constructor does not fit its
    /// bit field.
    InvalidIdentity,
    /// The wall clock reported a time before the epoch or beyond what the
    /// timestamp field can hold, so no id can encode it.
    TimestampOutOfRange,
}

/// Pack the four fields of an id into one 64-bit word.
///
/// This is the layout of record: every contract about ids speaks of it.
pub open spec fn encode(t_delta: u64, dc: u64, w: u64, seq: u64) -> u64 {
    (t_delta << TIMESTAMP_SHIFT) | (dc << DATACENTER_SHIFT) | (w << WORKER_SHIFT) | seq
}

/// The timestamp field of a packed id, relative to the epoch.
pub open spec fn field_timestamp_delta(id: u64) -> u64 {
    id >> TIMESTAMP_SHIFT
}

/// The datacenter id field of a packed id.
pub open spec fn field_datacenter(id: u64) -> u64 {
    (id >> DATACENTER_SHIFT) & MAX_DATACENTER_ID
}

/// The worker id field of a packed id.
pub open spec fn field_worker(id: u64) -> u64 {
    (id >> WORKER_SHIFT) & MAX_WORKER_ID
}

/// The sequence field of a packed id.
pub open spec fn field_sequence(id: u64) -> u64 {
    id & SEQUENCE_MASK
}

/// In-range fields leave the sign bit of the packed word clear, so the id is
/// non-negative as an `i64`.
pub proof fn lemma_encode_bound(t_delta: u64, dc: u64, w: u64, seq: u64)
    by (bit_vector)
    requires
        t_delta <= 0x1ff_ffff_ffff,
        dc <= 31,
        w <= 31,
        seq <= 0xfff,
    ensures
        encode(t_delta, dc, w, seq) < 0x8000_0000_0000_0000u64,
{
}

/// One id generator: a fixed identity plus the mutable pair that the
/// algorithm reconciles against the clock on every call.
#[derive(Debug)]
pub struct Snowflake {
    /// Datacenter identity, fixed at construction; at most `MAX_DATACENTER_ID`.
    pub datacenter_id: u64,
    /// Worker identity, fixed at construction; at most `MAX_WORKER_ID`.
    pub worker_id: u64,
    /// Sequence counter within the current millisecond; at most `SEQUENCE_MASK`.
    pub sequence_id: u64,
    /// Raw wall-clock millisecond of the last id issued, 0 before the first.
    pub last_timestamp: u64,
}

/// What one reconciliation of a clock reading against the state produced.
#[derive(Debug, Clone, Copy, PartialEq, Eq, Structural)]
pub enum StepOutcome {
    /// The reading admitted an id, and this is it.
    Produced(i64),
    /// The reading was refused; the state is unchanged.
    Rejected(IdError),
    /// All `SEQUENCE_MASK + 1` ids of the current millisecond are spent; the
    /// state is unchanged and a strictly later reading will produce again.
    SequenceExhausted,
}

impl Snowflake {
    /// Every field fits its bit field.
    pub open spec fn wf(self) -> bool {
        &&& self.datacenter_id <= MAX_DATACENTER_ID
        &&& self.worker_id <= MAX_WORKER_ID
        &&& self.sequence_id <= SEQUENCE_MASK
        &&& self.last_timestamp <= MAX_TIMESTAMP_MS
    }
}

/// One successful call took the generator from `pre` to `post` and returned
/// `id`: the identity is unchanged, the pair `(last_timestamp, sequence_id)`
/// grew strictly in lexicographic order, and `id` is exactly the new state
/// packed into a word.
pub open spec fn generated(pre: Snowflake, post: Snowflake, id: i64) -> bool {
    &&& post.wf()
    &&& post.datacenter_id == pre.datacenter_id
    &&& post.worker_id == pre.worker_id
    &&& EPOCH_MS <= post.last_timestamp
    &&& (post.last_timestamp > pre.last_timestamp
        || (post.last_timestamp == pre.last_timestamp && post.sequence_id > pre.sequence_id))
    &&& id == encode((post.last_timestamp - EPOCH_MS) as u64, post.datacenter_id,
            post.worker_id, post.sequence_id) as i64
}

/// The new state and the outcome that one clock reading `now` must yield on
/// state `pre`: the clock-reconciliation algorithm itself.
///
/// In order: a reading behind `last_timestamp` is refused and reported with
/// the size of the regression; a reading no id can encode is refused; within
/// the last millisecond the sequence counter advances unless it is spent; a
/// later millisecond restarts the counter at zero.
pub open spec fn step_result(pre: Snowflake, now: int) -> (Snowflake, StepOutcome) {
    if now < pre.last_timestamp {
        (pre, StepOutcome::Rejected(IdError::ClockMovedBackwards {
            regression_ms: (pre.last_timestamp - now) as u64,
        }))
    } else if now < EPOCH_MS || now > MAX_TIMESTAMP_MS {
        (pre, StepOutcome::Rejected(IdError::TimestampOutOfRange))
    } else if now == pre.last_timestamp && pre.sequence_id == SEQUENCE_MASK {
        (pre, StepOutcome::SequenceExhausted)
    } else {
        let seq = if now == pre.last_timestamp { (pre.sequence_id + 1) as u64 } else { 0u64 };
        let post = Snowflake {
            datacenter_id: pre.datacenter_id,
            worker_id: pre.worker_id,
            sequence_id: seq,
            last_timestamp: now as u64,
        };
        (post, StepOutcome::Produced(
            encode((now - EPOCH_MS) as u64, pre.datacenter_id, pre.worker_id, seq) as i64,
        ))
    }
}

impl Snowflake {
    /// Build a generator with the given identity, sequence counter 0 and no
    /// millisecond seen yet. An identity that does not fit its bit field is
    /// refused with `InvalidIdentity`, and only such an identity is.
    pub fn new(worker_id: i64, datacenter_id: i64) -> (r: Result<Snowflake, IdError>)
        ensures
            r matches Ok(g) ==> {
                &&& 0 <= worker_id <= MAX_WORKER_ID
                &&& 0 <= datacenter_id <= MAX_DATACENTER_ID
                &&& g.wf()
                &&& g.worker_id == worker_id
                &&& g.datacenter_id == datacenter_id
                &&& g.sequence_id == 0
                &&& g.last_timestamp == 0
            },
            r matches Err(e) ==> {
                &&& e == IdError::InvalidIdentity
                &&& !(0 <= worker_id <= MAX_WORKER_ID && 0 <= datacenter_id <= MAX_DATACENTER_ID)
            },
    {
        if worker_id < 0 || worker_id > MAX_WORKER_ID as i64
            || datacenter_id < 0 || datacenter_id > MAX_DATACENTER_ID as i64 {
            return Err(IdError::InvalidIdentity);
        }
        Ok(Snowflake {
            datacenter_id: datacenter_id as u64,
            worker_id: worker_id as u64,
            sequence_id: 0,
            last_timestamp: 0,
        })
    }

    /// Reconcile one clock reading against the state: the step that
    /// `generate_id` performs with a real reading, exposed so that a caller
    /// (or a test) can drive the generator from a simulated clock. The new
    /// state and the outcome are exactly `step_result` of the old state and
    /// the reading.
    pub fn next_id_at(&mut self, now_ms: i64) -> (out: StepOutcome)
        requires
            old(self).wf(),
        ensures
            final(self).wf(),
            (*final(self), out) == step_result(*old(self), now_ms as int),
            out matches StepOutcome::Produced(id) ==> generated(*old(self), *final(self), id),
            !(out matches StepOutcome::Produced(_)) ==> *final(self) == *old(self),
    {
        if now_ms < 0 || (now_ms as u64) < self.last_timestamp {
            let regression: u64 = if now_ms >= 0 {
                self.last_timestamp - (now_ms as u64)
            } else {
                // the magnitude of a negative reading, computed so that even
                // i64::MIN does not overflow the negation
                self.last_timestamp + (((-(now_ms + 1)) as u64) + 1)
            };
            return StepOutcome::Rejected(IdError::ClockMovedBackwards {
                regression_ms: regression,
            });
        }
        let now: u64 = now_ms as u64;
        if now < EPOCH_MS || now > MAX_TIMESTAMP_MS {
            return StepOutcome::Rejected(IdError::TimestampOutOfRange);
        }
        if now == self.last_timestamp {
            if self.sequence_id == SEQUENCE_MASK {
                return StepOutcome::SequenceExhausted;
            }
            self.sequence_id = self.sequence_id + 1;
        } else {
            self.sequence_id = 0;
        }
        self.last_timestamp = now;
        StepOutcome::Produced(encode_id(
            now - EPOCH_MS,
            self.datacenter_id,
            self.worker_id,
            self.sequence_id,
        ))
    }

    /// Generate the next id from the wall clock.
    ///
    /// A successful call advances `(last_timestamp, sequence_id)` strictly and
    /// returns that state packed into a word (`generated`); ids of one
    /// generator therefore grow strictly across successful calls. A failed
    /// call leaves the state untouched and reports either a clock running
    /// behind `last_timestamp` or a reading no id can encode; when the
    /// sequence space of the current millisecond is spent, the call blocks
    /// until the clock advances instead of failing.
    pub fn generate_id(&mut self) -> (r: Result<i64, IdError>)
        requires
            old(self).wf(),
        ensures
            final(self).wf(),
            final(self).datacenter_id == old(self).datacenter_id,
            final(self).worker_id == old(self).worker_id,
            r matches Ok(id) ==> generated(*old(self), *final(self), id),
            r matches Err(e) ==> *final(self) == *old(self)
                && (e matches IdError::ClockMovedBackwards { .. }
                    || e == IdError::TimestampOutOfRange),
    {
        let now: i64 = clock::current_millis();
        match self.next_id_at(now) {
            StepOutcome::Produced(id) => Ok(id),
            StepOutcome::Rejected(e) => Err(e),
            StepOutcome::SequenceExhausted => {
                let fresh: i64 = clock::next_millis(self.last_timestamp as i64);
                match self.next_id_at(fresh) {
                    StepOutcome::Produced(id) => Ok(id),
                    StepOutcome::Rejected(e) => Err(e),
                    StepOutcome::SequenceExhausted => {
                        // a reading strictly later than `last_timestamp`
                        // cannot find the sequence spent
                        proof {
                            assert(false);
                        }
                        unreached()
                    },
                }
            },
        }
    }
}

/// Pack in-range fields into a non-negative id: the executable form of
/// `encode`.
fn encode_id(t_delta: u64, dc: u64, w: u64, seq: u64) -> (id: i64)
    requires
        t_delta <= MAX_TIMESTAMP_DELTA,
        dc <= MAX_DATACENTER_ID,
        w <= MAX_WORKER_ID,
        seq <= SEQUENCE_MASK,
    ensures
        id == encode(t_delta, dc, w, seq) as i64,
        0 <= id,
{
    proof {
        lemma_encode_bound(t_delta, dc, w, seq);
    }
    let packed: u64 = (t_delta << TIMESTAMP_SHIFT) | (dc << DATACENTER_SHIFT)
        | (w << WORKER_SHIFT) | seq;
    packed as i64
}

/// The four fields recovered from an id.
#[derive(Debug, Clone, Copy, PartialEq, Eq, Structural)]
pub struct IdParts {
    /// Wall-clock millisecond the id was issued at, with the epoch added back.
    pub timestamp_ms: u64,
    /// Datacenter identity of the generator that issued the id.
    pub datacenter_id: u64,
    /// Worker identity of the generator that issued the id.
    pub worker_id: u64,
    /// Sequence counter of the id within its millisecond.
    pub sequence: u64,
}

/// Unpack an id into the four fields it was packed from.
pub fn decode_id(id: i64) -> (p: IdParts)
    requires
        0 <= id,
    ensures
        p.timestamp_ms == field_timestamp_delta(id as u64) + EPOCH_MS,
        p.datacenter_id == field_datacenter(id as u64),
        p.worker_id == field_worker(id as u64),
        p.sequence == field_sequence(id as u64),
{
    let u: u64 = id as u64;
    proof {
        assert((u >> TIMESTAMP_SHIFT) <= 0x3ff_ffff_ffffu64) by (bit_vector);
    }
    IdParts {
        timestamp_ms: (u >> TIMESTAMP_SHIFT) + EPOCH_MS,
        datacenter_id: (u >> DATACENTER_SHIFT) & MAX_DATACENTER_ID,
        worker_id: (u >> WORKER_SHIFT) & MAX_WORKER_ID,
        sequence: u & SEQUENCE_MASK,
    }
}

} // verus!
