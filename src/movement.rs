use vstd::prelude::*;

verus! {

/// A grid position.
#[derive(Clone, Copy, Debug, PartialEq, Eq, Structural)]
pub struct Position {
    pub x: i64,
    pub y: i64,
}

/// One directional input. `TestConstraint` requests a three-unit step and
/// exists to exercise the rejection of a batch.
#[derive(Clone, Copy, Debug, PartialEq, Eq, Structural)]
pub enum KeyInput {
    Up,
    Down,
    Left,
    Right,
    NoMove,
    TestConstraint,
}

/// The raw displacement that an input requests inside a batch.
pub open spec fn raw_delta(k: KeyInput) -> (int, int) {
    match k {
        KeyInput::Up => (0, 1),
        KeyInput::Down => (0, -1),
        KeyInput::Left => (-1, 0),
        KeyInput::Right => (1, 0),
        KeyInput::NoMove => (0, 0),
        KeyInput::TestConstraint => (3, 0),
    }
}

pub open spec fn abs(v: int) -> int {
    if v < 0 { -v } else { v }
}

pub open spec fn sign(v: int) -> int {
    if v > 0 { 1 } else if v < 0 { -1 } else { 0 }
}

/// An input obeys the movement rule: at most one unit along each axis.
pub open spec fn within_step(k: KeyInput) -> bool {
    abs(raw_delta(k).0) <= 1 && abs(raw_delta(k).1) <= 1
}

/// Every input of a batch obeys the movement rule.
pub open spec fn all_within(ks: Seq<KeyInput>) -> bool {
    forall|i: int| 0 <= i < ks.len() ==> #[trigger] within_step(ks[i])
}

/// An input changes the position.
pub open spec fn moves(k: KeyInput) -> bool {
    raw_delta(k) != (0int, 0int)
}

/// The position after one input, its raw delta normalised to a unit step.
pub open spec fn step(p: Position, k: KeyInput) -> Position {
    Position {
        x: (p.x + sign(raw_delta(k).0)) as i64,
        y: (p.y + sign(raw_delta(k).1)) as i64,
    }
}

/// The full sequence of a replay: the start, then the position after every
/// input that changed it.
pub open spec fn walk(start: Position, ks: Seq<KeyInput>) -> Seq<Position>
    decreases ks.len(),
{
    if ks.len() == 0 {
        seq![start]
    } else {
        let prev = walk(start, ks.drop_last());
        if moves(ks.last()) {
            prev.push(step(prev.last(), ks.last()))
        } else {
            prev
        }
    }
}

/// A batch of `n` inputs from `start` cannot leave the range of `i64`.
pub open spec fn fits(start: Position, n: int) -> bool {
    i64::MIN + n <= start.x <= i64::MAX - n && i64::MIN + n <= start.y <= i64::MAX - n
}

/// The raw displacement of `k`.
pub fn raw_delta_of(k: KeyInput) -> (r: (i64, i64))
    ensures
        r.0 == raw_delta(k).0,
        r.1 == raw_delta(k).1,
{
    match k {
        KeyInput::Up => (0, 1),
        KeyInput::Down => (0, -1),
        KeyInput::Left => (-1, 0),
        KeyInput::Right => (1, 0),
        KeyInput::NoMove => (0, 0),
        KeyInput::TestConstraint => (3, 0),
    }
}


/// The slice of a full sequence that a proof discloses.
pub open spec fn disclosed(full: Seq<Position>) -> Seq<Position> {
    let n = full.len() as int;
    if n <= 1 {
        Seq::empty()
    } else if n <= 4 {
        full.subrange(0, n - 1)
    } else {
        let mid = n / 2;
        let lo = mid / 2;
        let hi = if mid + lo < n - 1 { mid + lo } else { n - 1 };
        full.subrange(lo, hi)
    }
}

/// A batch broke the movement rule; no part of it is accepted.
#[derive(Clone, Copy, Debug, PartialEq, Eq, Structural)]
pub struct ConstraintViolation {
    /// Index of the first offending input.
    pub index: usize,
}

/// What a replay yields: the full sequence and the disclosed trail.
#[derive(Debug)]
pub struct Replay {
    pub positions: Vec<Position>,
    pub trail: Vec<Position>,
}

fn sign_of(v: i64) -> (r: i64)
    ensures
        r == sign(v as int),
{
    if v > 0 {
        1
    } else if v < 0 {
        -1
    } else {
        0
    }
}

/// The slice of `full` that is disclosed.
pub fn disclose(full: &Vec<Position>) -> (r: Vec<Position>)
    ensures
        r@ == disclosed(full@),
{
    let n = full.len();
    let (lo, hi): (usize, usize) = if n <= 1 {
        (0, 0)
    } else if n <= 4 {
        (0, n - 1)
    } else {
        let mid = n / 2;
        let lo = mid / 2;
        let hi = if mid + lo < n - 1 { mid + lo } else { n - 1 };
        (lo, hi)
    };
    let mut r: Vec<Position> = Vec::new();
    let mut i: usize = lo;
    while i < hi
        invariant
            lo <= i <= hi <= n == full@.len(),
            r@ == full@.subrange(lo as int, i as int),
        decreases hi - i,
    {
        r.push(full[i]);
        i = i + 1;
        proof {
            assert(r@ =~= full@.subrange(lo as int, i as int));
        }
    }
    proof {
        assert(r@ =~= disclosed(full@));
    }
    r
}

proof fn lemma_walk_nonempty(start: Position, ks: Seq<KeyInput>)
    ensures
        walk(start, ks).len() >= 1,
        walk(start, ks)[0] == start,
    decreases ks.len(),
{
    if ks.len() > 0 {
        lemma_walk_nonempty(start, ks.drop_last());
    }
}

/// Replays `inputs` from `start`. Fails, as a whole, where any input breaks
/// the movement rule; else yields the full sequence and its disclosed slice.
pub fn replay(start: Position, inputs: &Vec<KeyInput>) -> (r: Result<Replay, ConstraintViolation>)
    requires
        fits(start, inputs@.len() as int),
    ensures
        r is Ok <==> all_within(inputs@),
        r matches Ok(rp) ==> rp.positions@ == walk(start, inputs@) && rp.trail@ == disclosed(
            walk(start, inputs@),
        ),
        r matches Err(e) ==> e.index < inputs@.len() && !within_step(inputs@[e.index as int])
            && all_within(inputs@.subrange(0, e.index as int)),
{
    let n = inputs.len();
    let mut positions: Vec<Position> = Vec::new();
    positions.push(start);
    let mut cur = start;
    let mut i: usize = 0;
    proof {
        assert(inputs@.subrange(0, 0) =~= Seq::<KeyInput>::empty());
    }
    while i < n
        invariant
            0 <= i <= n == inputs@.len(),
            fits(start, n as int),
            all_within(inputs@.subrange(0, i as int)),
            positions@ == walk(start, inputs@.subrange(0, i as int)),
            positions@.len() >= 1,
            cur == positions@.last(),
            abs(cur.x - start.x) <= i,
            abs(cur.y - start.y) <= i,
        decreases n - i,
    {
        let k = inputs[i];
        let (dx, dy) = raw_delta_of(k);
        if dx > 1 || dx < -1 || dy > 1 || dy < -1 {
            proof {
                assert(!within_step(inputs@[i as int]));
            }
            return Err(ConstraintViolation { index: i });
        }
        let ghost prefix = inputs@.subrange(0, i as int);
        let ghost next = inputs@.subrange(0, i as int + 1);
        proof {
            assert(next.drop_last() =~= prefix);
            assert(next.last() == k);
            assert forall|j: int| 0 <= j < next.len() implies #[trigger] within_step(next[j]) by {
                if j < i {
                    assert(next[j] == prefix[j]);
                }
            }
        }
        if dx != 0 || dy != 0 {
            cur = Position { x: cur.x + sign_of(dx), y: cur.y + sign_of(dy) };
            positions.push(cur);
        }
        i = i + 1;
    }
    proof {
        assert(inputs@.subrange(0, n as int) =~= inputs@);
    }
    let trail = disclose(&positions);
    Ok(Replay { positions, trail })
}


/// Two positions one unit apart along exactly one axis.
pub open spec fn unit_apart(a: Position, b: Position) -> bool {
    abs(b.x - a.x) + abs(b.y - a.y) == 1
}

/// Adjacent positions of `ps` are one unit apart along exactly one axis.
pub open spec fn unit_steps(ps: Seq<Position>) -> bool {
    forall|i: int| 0 <= i < ps.len() - 1 ==> #[trigger] unit_apart(ps[i], ps[i + 1])
}

proof fn lemma_walk_bounded(start: Position, ks: Seq<KeyInput>)
    requires
        all_within(ks),
        fits(start, ks.len() as int),
    ensures
        walk(start, ks).len() <= ks.len() + 1,
        unit_steps(walk(start, ks)),
        forall|i: int|
            0 <= i < walk(start, ks).len() ==> abs(#[trigger] walk(start, ks)[i].x - start.x) <= i
                && abs(walk(start, ks)[i].y - start.y) <= i,
    decreases ks.len(),
{
    lemma_walk_nonempty(start, ks);
    if ks.len() > 0 {
        let pre = ks.drop_last();
        assert forall|j: int| 0 <= j < pre.len() implies #[trigger] within_step(pre[j]) by {
            assert(pre[j] == ks[j]);
        }
        lemma_walk_bounded(start, pre);
        lemma_walk_nonempty(start, pre);
        let prev = walk(start, pre);
        let k = ks.last();
        assert(within_step(ks[ks.len() - 1]));
        if moves(k) {
            let last = prev.last();
            assert(abs(prev[prev.len() - 1].x - start.x) <= prev.len() - 1);
            let w = prev.push(step(last, k));
            assert forall|i: int| 0 <= i < w.len() - 1 implies #[trigger] unit_apart(w[i], w[i + 1]) by {
                if i < w.len() - 2 {
                    assert(w[i] == prev[i] && w[i + 1] == prev[i + 1]);
                }
            }
            assert forall|i: int| 0 <= i < w.len() implies abs(#[trigger] w[i].x - start.x) <= i
                && abs(w[i].y - start.y) <= i by {
                if i < w.len() - 1 {
                    assert(w[i] == prev[i]);
                }
            }
        }
    }
}

/// A batch whose every input obeys the movement rule replays to a sequence
/// in which each move is one unit along one axis; the disclosed trail, a
/// contiguous slice of it, is made of such moves too.
pub proof fn law_valid_batch_moves_by_unit_steps(start: Position, ks: Seq<KeyInput>)
    requires
        all_within(ks),
        fits(start, ks.len() as int),
    ensures
        walk(start, ks)[0] == start,
        unit_steps(walk(start, ks)),
        unit_steps(disclosed(walk(start, ks))),
{
    lemma_walk_nonempty(start, ks);
    lemma_walk_bounded(start, ks);
    let w = walk(start, ks);
    let d = disclosed(w);
    let n = w.len() as int;
    let lo: int = if n <= 4 { 0 } else { (n / 2) / 2 };
    if n > 1 {
        assert forall|i: int| 0 <= i < d.len() - 1 implies #[trigger] unit_apart(d[i], d[i + 1]) by {
            assert(d[i] == w[lo + i] && d[i + 1] == w[lo + i + 1]);
            assert(unit_apart(w[lo + i], w[lo + i + 1]));
        }
    }
}

/// Of a full sequence of more than four positions, with `mid` half its
/// length, the disclosed trail is the `mid` positions that start at
/// `mid / 2`: the clamp to the last index never cuts it short, and the last
/// position is never disclosed.
pub proof fn law_long_sequence_discloses_middle(full: Seq<Position>)
    requires
        full.len() > 4,
    ensures
        ({
            let mid = full.len() as int / 2;
            &&& disclosed(full) == full.subrange(mid / 2, mid / 2 + mid)
            &&& disclosed(full).len() == mid
            &&& mid / 2 + mid < full.len() - 1
        }),
{
}

/// One input that breaks the movement rule rejects the whole batch around
/// it, whatever comes before or after.
pub proof fn law_offending_input_rejects_batch(pre: Seq<KeyInput>, k: KeyInput, post: Seq<KeyInput>)
    requires
        !within_step(k),
    ensures
        !all_within(pre.push(k) + post),
{
    let ks = pre.push(k) + post;
    assert(ks[pre.len() as int] == k);
}

} // verus!
