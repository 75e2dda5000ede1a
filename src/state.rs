use crate::movement::{KeyInput, Position};
use vstd::prelude::*;

verus! {

/// Milliseconds between two batch deadlines.
pub const BATCH_INTERVAL_MS: u64 = 5000;

/// What the node is doing, or what it did last.
#[derive(Clone, Copy, Debug, PartialEq, Eq, Structural)]
pub enum Status {
    /// No batch has run yet.
    Waiting,
    /// A batch is being proved.
    Generating,
    /// The last own batch was proved, in the given time.
    Generated { elapsed_ms: u64 },
    /// The last own batch could not be proved; the position was reverted.
    ProofFailed,
    /// A remote attestation is being checked.
    Verifying,
    /// A remote attestation did not verify.
    VerificationFailed,
    /// A remote attestation verified but its output could not be read.
    DecodingFailed,
    /// A remote attestation verified; its trail is now the verified trail.
    RemoteVerified { trail_len: usize },
}

impl Status {
    /// The status reports a failure.
    pub open spec fn spec_is_failure(&self) -> bool {
        self is ProofFailed || self is VerificationFailed || self is DecodingFailed
    }

    #[verifier::when_used_as_spec(spec_is_failure)]
    pub fn is_failure(&self) -> (r: bool)
        ensures
            r == self.spec_is_failure(),
    {
        match self {
            Status::ProofFailed | Status::VerificationFailed | Status::DecodingFailed => true,
            _ => false,
        }
    }
}

/// Why proving a batch failed. The state machine treats both alike.
#[derive(Clone, Copy, Debug, PartialEq, Eq, Structural)]
pub enum ProofError {
    /// An input of the batch broke the movement rule.
    ConstraintViolation,
    /// The proving backend failed for another reason.
    Backend,
}

/// A batch handed to the prover: the drained inputs and the position that
/// they start from.
#[derive(Debug)]
pub struct Batch {
    pub keys: Vec<KeyInput>,
    pub start: Position,
}

/// The node's shared record.
#[derive(Debug)]
pub struct GameState {
    /// Speculative position, moved at once on each input.
    pub position: Position,
    /// The position that a failed batch reverts to.
    pub last_verified: Position,
    /// The position that the next batch starts from.
    pub proof_start: Position,
    /// Inputs not yet batched, oldest first.
    pub pending_keys: Vec<KeyInput>,
    /// A batch is in flight.
    pub processing: bool,
    /// When the next batch may start, in milliseconds of the node's clock.
    pub next_process_ms: u64,
    pub status: Status,
    pub last_batch_size: usize,
    /// The trail backed by the last verified attestation.
    pub verified_trail: Vec<Position>,
}

/// The displacement that the speculative position takes on an input; the
/// test input shows as a diagonal jump.
pub open spec fn echo_delta(k: KeyInput) -> (int, int) {
    match k {
        KeyInput::Up => (0, 1),
        KeyInput::Down => (0, -1),
        KeyInput::Left => (-1, 0),
        KeyInput::Right => (1, 0),
        KeyInput::NoMove => (0, 0),
        KeyInput::TestConstraint => (3, 3),
    }
}

/// `v` held to the range of `i64`.
pub open spec fn clamp(v: int) -> i64 {
    if v > i64::MAX {
        i64::MAX
    } else if v < i64::MIN {
        i64::MIN
    } else {
        v as i64
    }
}

/// The speculative position after an input.
pub open spec fn echo(p: Position, k: KeyInput) -> Position {
    Position { x: clamp(p.x + echo_delta(k).0), y: clamp(p.y + echo_delta(k).1) }
}

fn add_clamped(v: i64, d: i64) -> (r: i64)
    requires
        -3 <= d <= 3,
    ensures
        r == clamp(v + d),
{
    if d > 0 && v > i64::MAX - d {
        i64::MAX
    } else if d < 0 && v < i64::MIN - d {
        i64::MIN
    } else {
        v + d
    }
}

fn echo_delta_of(k: KeyInput) -> (r: (i64, i64))
    ensures
        r.0 == echo_delta(k).0,
        r.1 == echo_delta(k).1,
{
    match k {
        KeyInput::Up => (0, 1),
        KeyInput::Down => (0, -1),
        KeyInput::Left => (-1, 0),
        KeyInput::Right => (1, 0),
        KeyInput::NoMove => (0, 0),
        KeyInput::TestConstraint => (3, 3),
    }
}


impl GameState {
    /// A node at the origin, with nothing pending and the first deadline one
    /// interval after the clock's zero.
    pub fn new() -> (r: Self)
        ensures
            r.position == (Position { x: 0, y: 0 }),
            r.last_verified == (Position { x: 0, y: 0 }),
            r.proof_start == (Position { x: 0, y: 0 }),
            r.pending_keys@.len() == 0,
            !r.processing,
            r.next_process_ms == BATCH_INTERVAL_MS,
            r.status == Status::Waiting,
            r.last_batch_size == 0,
            r.verified_trail@.len() == 0,
    {
        GameState {
            position: Position { x: 0, y: 0 },
            last_verified: Position { x: 0, y: 0 },
            proof_start: Position { x: 0, y: 0 },
            pending_keys: Vec::new(),
            processing: false,
            next_process_ms: BATCH_INTERVAL_MS,
            status: Status::Waiting,
            last_batch_size: 0,
            verified_trail: Vec::new(),
        }
    }

    /// Queues an input and moves the speculative position at once, whatever
    /// the batch state.
    pub fn apply_key(&mut self, k: KeyInput)
        ensures
            final(self).pending_keys@ == old(self).pending_keys@.push(k),
            final(self).position == echo(old(self).position, k),
            final(self).last_verified == old(self).last_verified,
            final(self).proof_start == old(self).proof_start,
            final(self).processing == old(self).processing,
            final(self).next_process_ms == old(self).next_process_ms,
            final(self).status == old(self).status,
            final(self).last_batch_size == old(self).last_batch_size,
            final(self).verified_trail == old(self).verified_trail,
    {
        self.pending_keys.push(k);
        let (dx, dy) = echo_delta_of(k);
        self.position = Position {
            x: add_clamped(self.position.x, dx),
            y: add_clamped(self.position.y, dy),
        };
    }

    /// Starts a batch where none is in flight and inputs are pending: drains
    /// the queue into the batch, which starts from the current baseline, and
    /// moves the baseline to the speculative position. Else changes nothing.
    pub fn begin_batch(&mut self) -> (r: Option<Batch>)
        ensures
            batch_started(*old(self), *final(self), r),
    {
        if self.processing || self.pending_keys.len() == 0 {
            return None;
        }
        let mut keys: Vec<KeyInput> = Vec::new();
        std::mem::swap(&mut keys, &mut self.pending_keys);
        self.processing = true;
        self.status = Status::Generating;
        self.last_batch_size = keys.len();
        let start = self.proof_start;
        self.proof_start = self.position;
        Some(Batch { keys, start })
    }

    /// The periodic wake-up: before the deadline nothing changes; at or after
    /// it the deadline is rearmed one interval later and a batch is started
    /// where one may be.
    pub fn poll(&mut self, now_ms: u64) -> (r: Option<Batch>)
        ensures
            now_ms < old(self).next_process_ms ==> r is None && *final(self) == *old(self),
            now_ms >= old(self).next_process_ms ==> batch_started(
                GameState { next_process_ms: rearmed(now_ms), ..*old(self) },
                *final(self),
                r,
            ),
    {
        if now_ms < self.next_process_ms {
            return None;
        }
        self.next_process_ms = now_ms.saturating_add(BATCH_INTERVAL_MS);
        self.begin_batch()
    }

    /// Applies the outcome of proving the batch in flight. On success the
    /// proved trail replaces the verified trail and the attestation is to be
    /// published; on failure the speculative position reverts to the last
    /// verified one and nothing is published. Either way the latch is freed;
    /// the last verified position itself is never moved here.
    pub fn finish_batch(&mut self, outcome: Result<Vec<Position>, ProofError>, elapsed_ms: u64) -> (publish: bool)
        ensures
            publish == outcome is Ok,
            batch_finished(*old(self), *final(self), outcome, elapsed_ms),
    {
        self.processing = false;
        match outcome {
            Ok(trail) => {
                self.verified_trail = trail;
                self.status = Status::Generated { elapsed_ms };
                true
            },
            Err(_) => {
                self.status = Status::ProofFailed;
                self.position = self.last_verified;
                false
            },
        }
    }

    /// Marks that a remote attestation is being checked.
    pub fn begin_remote_check(&mut self)
        ensures
            *final(self) == (GameState { status: Status::Verifying, ..*old(self) }),
    {
        self.status = Status::Verifying;
    }

    /// Applies the outcome of checking a remote attestation: a verified trail
    /// replaces the shared verified trail; a rejected one changes only the
    /// status.
    pub fn settle_remote(&mut self, outcome: Result<Vec<Position>, RemoteError>)
        ensures
            remote_settled(*old(self), *final(self), outcome),
    {
        match outcome {
            Ok(trail) => {
                let n = trail.len();
                self.verified_trail = trail;
                self.status = Status::RemoteVerified { trail_len: n };
            },
            Err(RemoteError::Verification) => {
                self.status = Status::VerificationFailed;
            },
            Err(RemoteError::Decoding) => {
                self.status = Status::DecodingFailed;
            },
        }
    }
}

/// Why a remote attestation was rejected.
#[derive(Clone, Copy, Debug, PartialEq, Eq, Structural)]
pub enum RemoteError {
    /// The attestation did not verify against the program identity.
    Verification,
    /// The attestation verified but its public output could not be read.
    Decoding,
}

/// The deadline after a wake-up at `now_ms`.
pub open spec fn rearmed(now_ms: u64) -> u64 {
    if now_ms + BATCH_INTERVAL_MS > u64::MAX {
        u64::MAX
    } else {
        (now_ms + BATCH_INTERVAL_MS) as u64
    }
}

/// `post` and `r` are what a batch attempt on `pre` yields.
pub open spec fn batch_started(pre: GameState, post: GameState, r: Option<Batch>) -> bool {
    if pre.processing || pre.pending_keys@.len() == 0 {
        r is None && post == pre
    } else {
        &&& r matches Some(b) && b.keys@ == pre.pending_keys@ && b.start == pre.proof_start
        &&& post.pending_keys@.len() == 0
        &&& post.processing
        &&& post.status == Status::Generating
        &&& post.last_batch_size == pre.pending_keys@.len()
        &&& post.proof_start == pre.position
        &&& post.position == pre.position
        &&& post.last_verified == pre.last_verified
        &&& post.next_process_ms == pre.next_process_ms
        &&& post.verified_trail == pre.verified_trail
    }
}

/// `post` is `pre` after the batch in flight ended with `outcome`.
pub open spec fn batch_finished(
    pre: GameState,
    post: GameState,
    outcome: Result<Vec<Position>, ProofError>,
    elapsed_ms: u64,
) -> bool {
    &&& !post.processing
    &&& post.last_verified == pre.last_verified
    &&& post.proof_start == pre.proof_start
    &&& post.pending_keys == pre.pending_keys
    &&& post.next_process_ms == pre.next_process_ms
    &&& post.last_batch_size == pre.last_batch_size
    &&& match outcome {
        Ok(trail) => {
            &&& post.verified_trail == trail
            &&& post.status == Status::Generated { elapsed_ms }
            &&& post.position == pre.position
        },
        Err(_) => {
            &&& post.verified_trail == pre.verified_trail
            &&& post.status == Status::ProofFailed
            &&& post.position == pre.last_verified
        },
    }
}

/// `post` is `pre` after a remote attestation was settled with `outcome`.
pub open spec fn remote_settled(
    pre: GameState,
    post: GameState,
    outcome: Result<Vec<Position>, RemoteError>,
) -> bool {
    &&& post.position == pre.position
    &&& post.last_verified == pre.last_verified
    &&& post.proof_start == pre.proof_start
    &&& post.pending_keys == pre.pending_keys
    &&& post.processing == pre.processing
    &&& post.next_process_ms == pre.next_process_ms
    &&& post.last_batch_size == pre.last_batch_size
    &&& match outcome {
        Ok(trail) => {
            &&& post.verified_trail == trail
            &&& post.status == Status::RemoteVerified { trail_len: trail@.len() as usize }
        },
        Err(RemoteError::Verification) => {
            &&& post.verified_trail == pre.verified_trail
            &&& post.status == Status::VerificationFailed
        },
        Err(RemoteError::Decoding) => {
            &&& post.verified_trail == pre.verified_trail
            &&& post.status == Status::DecodingFailed
        },
    }
}


/// While a batch is in flight a second attempt starts nothing and leaves the
/// record, its pending inputs included, as it was; inputs that arrive
/// meanwhile are queued behind the earlier ones.
pub proof fn law_one_batch_in_flight(
    s0: GameState,
    s1: GameState,
    b: Batch,
    s2: GameState,
    r2: Option<Batch>,
    k: KeyInput,
    s3: GameState,
)
    requires
        batch_started(s0, s1, Some(b)),
        batch_started(s1, s2, r2),
        s3.pending_keys@ == s2.pending_keys@.push(k),
    ensures
        s1.processing,
        r2 is None,
        s2 == s1,
        s3.pending_keys@ == s1.pending_keys@.push(k),
{
}

/// A failed batch leaves the speculative position at the last verified one,
/// frees the latch and reports a failure; the verified trail stays.
pub proof fn law_failed_batch_reverts(
    pre: GameState,
    post: GameState,
    e: ProofError,
    elapsed_ms: u64,
)
    requires
        batch_finished(pre, post, Err(e), elapsed_ms),
    ensures
        post.position == pre.last_verified,
        !post.processing,
        post.status.spec_is_failure(),
        post.verified_trail == pre.verified_trail,
{
}

} // verus!
