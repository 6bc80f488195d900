//! The one-shot handoff: the stages that a pinned place passes through on
//! its way from "address fixed, content not yet valid" to "address fixed,
//! content valid", and the only two steps that lead from one stage to the
//! next.
//!
//! The stages are ordered and every step moves forward, so a place that has
//! left [`Stage::Uninitialized`] never comes back to it. The step that leaves
//! it, [`Step::Begin`], is the one that hands the value out for
//! initialization; [`lemma_begins_at_most_once`] shows that no run of steps
//! takes it twice.

use vstd::prelude::*;

verus! {

/// Where a pinned place stands in its initialization.
#[derive(Clone, Copy, Debug, PartialEq, Eq, Structural)]
pub enum Stage {
    /// The address is fixed; the content is in its uninitialized
    /// representation and may be partial.
    Uninitialized,
    /// The handoff has begun: the value has been handed out and has not yet
    /// come back in its initialized representation.
    Initializing,
    /// Terminal. The content is in its initialized representation and every
    /// invariant of that representation holds.
    Initialized,
}

/// A step of the handoff.
#[derive(Clone, Copy, Debug, PartialEq, Eq, Structural)]
pub enum Step {
    /// Hands the uninitialized value out.
    Begin,
    /// Takes the initialized value in.
    Complete,
}

impl Stage {
    /// The position of a stage in the lifecycle.
    pub open spec fn rank(self) -> nat {
        match self {
            Stage::Uninitialized => 0,
            Stage::Initializing => 1,
            Stage::Initialized => 2,
        }
    }

    /// The stage that `step` leads to from `self`, where that step is
    /// permitted: `Begin` only from `Uninitialized`, `Complete` only from
    /// `Initializing`.
    pub open spec fn after(self, step: Step) -> Option<Stage> {
        match (self, step) {
            (Stage::Uninitialized, Step::Begin) => Some(Stage::Initializing),
            (Stage::Initializing, Step::Complete) => Some(Stage::Initialized),
            _ => None,
        }
    }

    /// The stage reached from `self` by taking `steps` in order, or `None`
    /// where one of them is not permitted at the stage it meets.
    pub open spec fn run(self, steps: Seq<Step>) -> Option<Stage>
        decreases steps.len(),
    {
        if steps.len() == 0 {
            Some(self)
        } else {
            match self.after(steps[0]) {
                Some(next) => next.run(steps.subrange(1, steps.len() as int)),
                None => None,
            }
        }
    }
}

/// How often `Begin` occurs in `steps`.
pub open spec fn begins(steps: Seq<Step>) -> nat
    decreases steps.len(),
{
    if steps.len() == 0 {
        0
    } else {
        let rest = begins(steps.subrange(1, steps.len() as int));
        if steps[0] == Step::Begin {
            rest + 1
        } else {
            rest
        }
    }
}

/// Every permitted step moves exactly one stage forward. In particular no
/// step leads to `Uninitialized`.
pub proof fn lemma_step_moves_forward(from: Stage, step: Step)
    requires
        from.after(step).is_some(),
    ensures
        from.after(step).unwrap().rank() == from.rank() + 1,
        from.after(step).unwrap() != Stage::Uninitialized,
{
}

/// The whole handoff is `Begin` followed by `Complete`, and it leads from
/// `Uninitialized` to `Initialized` and from no other stage anywhere.
pub proof fn lemma_whole_handoff(from: Stage)
    ensures
        from.run(seq![Step::Begin, Step::Complete]) == (if from == Stage::Uninitialized {
            Some(Stage::Initialized)
        } else {
            None
        }),
{
    let steps = seq![Step::Begin, Step::Complete];
    let rest = steps.subrange(1, steps.len() as int);
    assert(rest.len() == 1);
    assert(rest[0] == Step::Complete);
    assert(rest.subrange(1, rest.len() as int).len() == 0);
    reveal_with_fuel(Stage::run, 3);
}

/// The protocol is monotonic: a permitted run of steps ends at a stage that
/// is as many ranks ahead as the run is long, so it never ends behind where
/// it started, and it ends at `Uninitialized` only if it is empty.
pub proof fn lemma_run_is_monotonic(from: Stage, steps: Seq<Step>)
    requires
        from.run(steps).is_some(),
    ensures
        from.run(steps).unwrap().rank() == from.rank() + steps.len(),
        steps.len() > 0 ==> from.run(steps).unwrap() != Stage::Uninitialized,
        steps.len() <= 2,
    decreases steps.len(),
{
    if steps.len() > 0 {
        let next = from.after(steps[0]).unwrap();
        lemma_step_moves_forward(from, steps[0]);
        lemma_run_is_monotonic(next, steps.subrange(1, steps.len() as int));
    }
}

/// Exactly once: whatever stage a place is at, no permitted run of steps
/// begins the handoff more than once, and none begins it at all unless the
/// place is still `Uninitialized`.
pub proof fn lemma_begins_at_most_once(from: Stage, steps: Seq<Step>)
    requires
        from.run(steps).is_some(),
    ensures
        begins(steps) <= 1,
        begins(steps) == 1 ==> from == Stage::Uninitialized,
    decreases steps.len(),
{
    if steps.len() > 0 {
        let next = from.after(steps[0]).unwrap();
        let rest = steps.subrange(1, steps.len() as int);
        lemma_begins_at_most_once(next, rest);
        if steps[0] == Step::Begin {
            assert(next == Stage::Initializing);
            if begins(rest) == 1 {
                assert(next == Stage::Uninitialized);
            }
        }
    }
}

} // verus!
