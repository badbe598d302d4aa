use vstd::prelude::*;

verus! {

/// One full turn in the angle unit of a rail: angles and rotation speeds are
/// held in millionths of a turn, so advancing a rail is exact.
pub const FULL_TURN: i64 = 1_000_000;

/// The moving part of a circular rail: where on its circle the body stands,
/// and how far it moves each tick, both in millionths of a turn. A negative
/// speed turns the other way.
#[derive(Debug, Clone, Copy, PartialEq, Eq, Structural)]
pub struct RailPhase {
    pub angle: i64,
    pub rotation_speed: i64,
}

/// The angle after one tick: the speed is added, and a sum past a full turn
/// starts again at zero while one below zero starts again at a full turn.
/// A speed of more than a turn is not folded any further.
pub open spec fn wrapped_angle(angle: int, rotation_speed: int) -> int {
    let a = angle + rotation_speed;
    if a > FULL_TURN {
        0
    } else if a < 0 {
        FULL_TURN as int
    } else {
        a
    }
}

/// Whether `p` can take one tick without its angle sum leaving `i64`.
pub open spec fn can_advance(p: RailPhase) -> bool {
    i64::MIN <= p.angle + p.rotation_speed <= i64::MAX
}

/// The phase after one tick.
pub open spec fn advanced(p: RailPhase) -> RailPhase {
    RailPhase { angle: wrapped_angle(p.angle as int, p.rotation_speed as int) as i64, rotation_speed: p.rotation_speed }
}

/// The phase after `ticks` ticks.
pub open spec fn phase_after(p: RailPhase, ticks: nat) -> RailPhase
    decreases ticks,
{
    if ticks == 0 {
        p
    } else {
        advanced(phase_after(p, (ticks - 1) as nat))
    }
}

/// Every path of a stack after one tick.
pub open spec fn stack_advanced(s: Seq<RailPhase>) -> Seq<RailPhase> {
    s.map_values(|p: RailPhase| advanced(p))
}

/// Every path of a stack after `ticks` ticks of the whole stack.
pub open spec fn stack_after(s: Seq<RailPhase>, ticks: nat) -> Seq<RailPhase>
    decreases ticks,
{
    if ticks == 0 {
        s
    } else {
        stack_advanced(stack_after(s, (ticks - 1) as nat))
    }
}

impl RailPhase {
    /// Moves the body one tick along its rail.
    pub fn advance(&mut self)
        requires
            can_advance(*old(self)),
        ensures
            *final(self) == advanced(*old(self)),
            0 <= final(self).angle <= FULL_TURN,
    {
        let a = self.angle + self.rotation_speed;
        if a > FULL_TURN {
            self.angle = 0;
        } else if a < 0 {
            self.angle = FULL_TURN;
        } else {
            self.angle = a;
        }
    }
}

/// Moves every path of a rail-bound body's stack one tick.
pub fn advance_rails(paths: &mut Vec<RailPhase>)
    requires
        forall|i: int| 0 <= i < old(paths)@.len() ==> can_advance(#[trigger] old(paths)@[i]),
    ensures
        final(paths)@ == stack_advanced(old(paths)@),
{
    let n = paths.len();
    let mut i: usize = 0;
    while i < n
        invariant
            n == old(paths)@.len(),
            paths@.len() == n,
            0 <= i <= n,
            forall|j: int| 0 <= j < n ==> can_advance(#[trigger] old(paths)@[j]),
            forall|j: int| 0 <= j < i ==> #[trigger] paths@[j] == advanced(old(paths)@[j]),
            forall|j: int| i <= j < n ==> #[trigger] paths@[j] == old(paths)@[j],
        decreases n - i,
    {
        let mut p = paths[i];
        p.advance();
        paths.set(i, p);
        i = i + 1;
    }
    assert(paths@ =~= stack_advanced(old(paths)@));
}

/// After one tick a rail's angle is at least zero and below a full turn,
/// whenever the sum of angle and speed neither falls below zero nor lands
/// exactly on a full turn: those two sums leave the angle at a full turn.
pub proof fn lemma_angle_in_turn(p: RailPhase)
    requires
        p.angle + p.rotation_speed >= 0,
        p.angle + p.rotation_speed != FULL_TURN,
    ensures
        0 <= advanced(p).angle < FULL_TURN,
{
}

/// The paths of a stack do not act on one another: after any number of
/// ticks each path stands where it would stand had it moved alone.
pub proof fn lemma_stack_paths_independent(s: Seq<RailPhase>, ticks: nat)
    ensures
        stack_after(s, ticks).len() == s.len(),
        forall|i: int| 0 <= i < s.len() ==> #[trigger] stack_after(s, ticks)[i] == phase_after(s[i], ticks),
    decreases ticks,
{
    if ticks > 0 {
        lemma_stack_paths_independent(s, (ticks - 1) as nat);
    }
}

} // verus!
