//! The collision sequence and the per-step decision core.
//!
//! One simulation step is one box-box collision, possibly followed by a
//! wall bounce of the small box. The numeric front end computes the
//! post-collision velocities with the elastic-collision formula and hands
//! them in as binary64 bit patterns; [`Collisions::record_step`] decides
//! everything else — whether the small box bounces off the wall, what its
//! reflected velocity is, and whether the scenario has ended — and records
//! the step.

use crate::velocity::spec_flip_sign;
use crate::velocity::spec_le_zero;
use crate::velocity::spec_lt;
use crate::velocity;
use vstd::prelude::*;

verus! {

/// The record of one simulation step: the two velocities after the box-box
/// collision and, if the small box then struck the wall, its reflected
/// velocity. All values are binary64 bit patterns.
#[derive(Clone, Copy)]
pub struct CollisionPair {
    pub v_big_after_box_collision: u64,
    pub v_small_after_box_collision: u64,
    /// `None` exactly when no wall collision followed the box collision,
    /// which can happen only on the final step.
    pub v_small_after_wall_collision: Option<u64>,
}

/// The small box still moves leftward after the box collision; only then
/// does it strike the wall.
pub open spec fn wall_collision_happens(v_small: u64) -> bool {
    !spec_le_zero(v_small)
}

/// The step a box collision with outgoing velocities `v_big` and `v_small`
/// records: the wall bounce is present exactly when the small box still
/// moves leftward, and reflection negates its velocity.
pub open spec fn step_pair(v_big: u64, v_small: u64) -> CollisionPair {
    CollisionPair {
        v_big_after_box_collision: v_big,
        v_small_after_box_collision: v_small,
        v_small_after_wall_collision: if wall_collision_happens(v_small) {
            Some(spec_flip_sign(v_small))
        } else {
            None
        },
    }
}

/// The scenario ends with this step: either the small box no longer moves
/// leftward after the box collision (no wall bounce, nothing to catch), or
/// after the wall bounce it no longer moves rightward faster than the big
/// box (it can never catch up again).
pub open spec fn step_ends(v_big: u64, v_small: u64) -> bool {
    spec_le_zero(v_small) || !spec_lt(spec_flip_sign(v_small), v_big)
}

/// The small box's velocity going into the next step: reflected if it
/// struck the wall, unchanged otherwise.
pub open spec fn next_v_small(v_small: u64) -> u64 {
    if wall_collision_happens(v_small) {
        spec_flip_sign(v_small)
    } else {
        v_small
    }
}

/// Individual collision events recorded in one pair: the box collision,
/// plus the wall collision if one happened.
pub open spec fn pair_events(p: CollisionPair) -> int {
    if p.v_small_after_wall_collision is Some {
        2
    } else {
        1
    }
}

/// The chronological sequence of collision pairs produced for one mass,
/// together with the mass (as a binary64 bit pattern) that produced it.
/// Pairs are appended by [`Collisions::record_step`] and never mutated.
pub struct Collisions {
    collisions: Vec<CollisionPair>,
    mass_big: u64,
    finished: bool,
}

impl Collisions {
    /// The recorded pairs, in chronological order.
    pub closed spec fn pairs(self) -> Seq<CollisionPair> {
        self.collisions@
    }

    /// The mass of the larger box, as a binary64 bit pattern.
    pub closed spec fn mass(self) -> u64 {
        self.mass_big
    }

    /// Whether a recorded step has ended the scenario.
    pub closed spec fn done(self) -> bool {
        self.finished
    }

    /// Well-formedness. Every recorded pair is exactly the record of its
    /// box collision, every pair before the last one belongs to a step
    /// that continued, the sequence is still extendable only while no
    /// recorded step ended it, and once ended it is non-empty with a final
    /// step that did end.
    pub open spec fn wf(self) -> bool {
        &&& forall|i: int|
            0 <= i < self.pairs().len() ==> self.pairs()[i] == step_pair(
                self.pairs()[i].v_big_after_box_collision,
                self.pairs()[i].v_small_after_box_collision,
            )
        &&& forall|i: int|
            0 <= i < self.pairs().len() - 1 ==> !step_ends(
                self.pairs()[i].v_big_after_box_collision,
                self.pairs()[i].v_small_after_box_collision,
            )
        &&& !self.done() ==> forall|i: int|
            0 <= i < self.pairs().len() ==> !step_ends(
                self.pairs()[i].v_big_after_box_collision,
                self.pairs()[i].v_small_after_box_collision,
            )
        &&& self.done() ==> self.pairs().len() >= 1 && step_ends(
            self.pairs().last().v_big_after_box_collision,
            self.pairs().last().v_small_after_box_collision,
        )
    }

    /// The total event count of a finished, non-empty sequence: two events
    /// for every pair but the last, and one or two for the last depending
    /// on whether it ended with a wall bounce.
    pub open spec fn count_spec(self) -> int {
        (self.pairs().len() - 1) * 2 + pair_events(self.pairs().last())
    }

    /// Begins an empty sequence for the larger mass `mass_big`, given as a
    /// binary64 bit pattern that must encode a value greater than zero.
    pub fn new(mass_big: u64) -> (r: Collisions)
        requires
            !spec_le_zero(mass_big),
            !velocity::spec_is_nan(mass_big),
        ensures
            r.pairs() == Seq::<CollisionPair>::empty(),
            r.mass() == mass_big,
            !r.done(),
            r.wf(),
    {
        Collisions { collisions: Vec::new(), mass_big, finished: false }
    }

    /// Records one simulation step from the velocities the box-box
    /// collision produced, deciding the wall bounce and the termination
    /// checks itself. Returns whether the scenario has ended and the small
    /// box's velocity going into the next step.
    pub fn record_step(&mut self, v_big: u64, v_small: u64) -> (r: (bool, u64))
        requires
            old(self).wf(),
            !old(self).done(),
        ensures
            final(self).wf(),
            final(self).mass() == old(self).mass(),
            final(self).pairs() == old(self).pairs().push(step_pair(v_big, v_small)),
            final(self).done() == step_ends(v_big, v_small),
            r.0 == step_ends(v_big, v_small),
            r.1 == next_v_small(v_small),
    {
        let end_after_box_collision = velocity::le_zero(v_small);

        let (v_small_after_wall_collision, v_small_next) = if end_after_box_collision {
            (None, v_small)
        } else {
            let reflected = velocity::flip_sign(v_small);
            (Some(reflected), reflected)
        };

        self.collisions.push(
            CollisionPair {
                v_big_after_box_collision: v_big,
                v_small_after_box_collision: v_small,
                v_small_after_wall_collision,
            },
        );

        let end_after_wall_collision = !velocity::lt(velocity::flip_sign(v_small), v_big);
        let ended = end_after_box_collision || end_after_wall_collision;
        self.finished = ended;

        proof {
            assert(self.pairs().last() == step_pair(v_big, v_small));
            assert forall|i: int| 0 <= i < self.pairs().len() - 1 implies !step_ends(
                self.pairs()[i].v_big_after_box_collision,
                self.pairs()[i].v_small_after_box_collision,
            ) by {
                assert(self.pairs()[i] == old(self).pairs()[i]);
            }
        }

        (ended, v_small_next)
    }

    /// The number of recorded pairs.
    pub fn num_pairs(&self) -> (r: usize)
        ensures
            r == self.pairs().len(),
    {
        self.collisions.len()
    }

    /// The pair at position `i`.
    pub fn pair_at(&self, i: usize) -> (r: CollisionPair)
        requires
            i < self.pairs().len(),
        ensures
            r == self.pairs()[i as int],
    {
        self.collisions[i]
    }

    /// The mass of the larger box, as a binary64 bit pattern.
    pub fn mass_bits(&self) -> (r: u64)
        ensures
            r == self.mass(),
    {
        self.mass_big
    }

    /// Whether a recorded step has ended the scenario.
    pub fn is_done(&self) -> (r: bool)
        ensures
            r == self.done(),
    {
        self.finished
    }

    /// The total number of individual collision events — box collisions
    /// and wall collisions together — across the whole sequence: every
    /// pair but the last contributes two, and the last contributes one or
    /// two depending on whether it ended with a wall bounce.
    pub fn count(&self) -> (r: u64)
        requires
            self.pairs().len() >= 1,
            self.pairs().len() <= 0x7FFF_FFFF_FFFF_FFFF,
        ensures
            r == self.count_spec(),
    {
        let n = self.collisions.len();
        (n as u64 - 1) * 2 + self.collisions[n - 1].num_collisions()
    }
}

impl CollisionPair {
    /// Individual collision events this pair records: always the box
    /// collision, plus the wall collision if one happened.
    pub fn num_collisions(&self) -> (r: u64)
        ensures
            r == pair_events(*self),
    {
        if self.v_small_after_wall_collision.is_some() {
            2
        } else {
            1
        }
    }
}

/// Every pair except the last records a wall collision: a step without a
/// wall bounce ends the scenario, so only the final pair can lack one.
pub proof fn lemma_all_but_last_have_wall(c: Collisions)
    requires
        c.wf(),
    ensures
        forall|i: int|
            0 <= i < c.pairs().len() - 1 ==> c.pairs()[i].v_small_after_wall_collision is Some,
{
    assert forall|i: int|
        0 <= i < c.pairs().len() - 1 implies c.pairs()[i].v_small_after_wall_collision is Some by {
        assert(c.pairs()[i] == step_pair(
            c.pairs()[i].v_big_after_box_collision,
            c.pairs()[i].v_small_after_box_collision,
        ));
        assert(!step_ends(
            c.pairs()[i].v_big_after_box_collision,
            c.pairs()[i].v_small_after_box_collision,
        ));
    }
}

/// The total number of individual collision events a pair sequence
/// records: the sum of the events of its pairs.
pub open spec fn total_events(pairs: Seq<CollisionPair>) -> int
    decreases pairs.len(),
{
    if pairs.len() == 0 {
        0
    } else {
        total_events(pairs.drop_last()) + pair_events(pairs.last())
    }
}

/// A sequence whose pairs all record a wall collision records exactly two
/// events per pair.
pub proof fn lemma_total_events_when_all_have_wall(pairs: Seq<CollisionPair>)
    requires
        forall|i: int| 0 <= i < pairs.len() ==> pairs[i].v_small_after_wall_collision is Some,
    ensures
        total_events(pairs) == 2 * pairs.len(),
    decreases pairs.len(),
{
    if pairs.len() > 0 {
        assert forall|i: int|
            0 <= i < pairs.drop_last().len() implies pairs.drop_last()[i].v_small_after_wall_collision is Some by {
            assert(pairs.drop_last()[i] == pairs[i]);
        }
        lemma_total_events_when_all_have_wall(pairs.drop_last());
    }
}

/// A finished sequence is never empty: the first step is always recorded
/// before the termination checks can end the scenario.
pub proof fn lemma_finished_sequence_nonempty(c: Collisions)
    requires
        c.wf(),
        c.done(),
    ensures
        c.pairs().len() >= 1,
{
}

} // verus!
