//! The switch requester: how a running image asks for another one.
//!
//! A request is four steps in a fixed order: write the tag to the handoff
//! cell, wait until the write has completed, ask for a system reset, and spin
//! until the reset takes effect. Nothing can be reported back, because the
//! caller does not survive the reset; so the requester never finishes, and
//! once it spins it spins for good.

use vstd::prelude::*;
use crate::action::Action;

verus! {

/// How far a switch request has come.
#[derive(Clone, Copy, Debug, PartialEq, Eq, Structural)]
pub enum RequesterStage {
    /// Nothing has been done: the tag is written next.
    Start,
    /// The tag has been written: the barrier comes next.
    Written,
    /// The write is complete: the reset request comes next.
    Synchronized,
    /// The reset has been requested: all that is left is to wait for it.
    Resetting,
}

/// A request to switch images, as a machine that is stepped by its caller.
///
/// Drive it with `loop { perform(requester.step()) }`: the loop has no exit,
/// which is the point.
#[derive(Clone, Copy, Debug, PartialEq, Eq, Structural)]
pub struct SwitchRequester {
    /// The tag that the request leaves in the handoff cell.
    pub tag: u32,
    /// How far the request has come.
    pub stage: RequesterStage,
}

impl SwitchRequester {
    /// The action that the next step asks for.
    pub open spec fn next_action(self) -> Action {
        match self.stage {
            RequesterStage::Start => Action::WriteCell { tag: self.tag },
            RequesterStage::Written => Action::DataBarrier,
            RequesterStage::Synchronized => Action::RequestReset,
            RequesterStage::Resetting => Action::Spin,
        }
    }

    /// The requester after its next step.
    pub open spec fn next(self) -> SwitchRequester {
        let stage = match self.stage {
            RequesterStage::Start => RequesterStage::Written,
            RequesterStage::Written => RequesterStage::Synchronized,
            RequesterStage::Synchronized => RequesterStage::Resetting,
            RequesterStage::Resetting => RequesterStage::Resetting,
        };
        SwitchRequester { tag: self.tag, stage }
    }

    /// The requester after `steps` steps.
    pub open spec fn after(self, steps: nat) -> SwitchRequester
        decreases steps,
    {
        if steps == 0 {
            self
        } else {
            self.next().after((steps - 1) as nat)
        }
    }

    /// The number of steps left until the reset has been requested.
    pub open spec fn steps_to_reset(self) -> nat {
        match self.stage {
            RequesterStage::Start => 3,
            RequesterStage::Written => 2,
            RequesterStage::Synchronized => 1,
            RequesterStage::Resetting => 0,
        }
    }

    /// Whether the reset has been requested.
    pub open spec fn spec_is_resetting(self) -> bool {
        self.stage is Resetting
    }

    /// A request that leaves `tag` in the handoff cell, with nothing done yet.
    pub open spec fn spec_new(tag: u32) -> SwitchRequester {
        SwitchRequester { tag, stage: RequesterStage::Start }
    }

    /// A request that leaves `tag` in the handoff cell, with nothing done yet.
    #[verifier::when_used_as_spec(spec_new)]
    pub fn new(tag: u32) -> (requester: SwitchRequester)
        ensures
            requester == SwitchRequester::spec_new(tag),
    {
        SwitchRequester { tag, stage: RequesterStage::Start }
    }

    /// Whether the reset has been requested, so that only spinning is left.
    #[verifier::when_used_as_spec(spec_is_resetting)]
    pub fn is_resetting(self) -> (resetting: bool)
        ensures
            resetting == self.spec_is_resetting(),
    {
        match self.stage {
            RequesterStage::Resetting => true,
            _ => false,
        }
    }

    /// Advances the request by one step and returns the action to perform
    /// before the next one.
    pub fn step(&mut self) -> (action: Action)
        ensures
            action == old(self).next_action(),
            *final(self) == old(self).next(),
    {
        match self.stage {
            RequesterStage::Start => {
                self.stage = RequesterStage::Written;
                Action::WriteCell { tag: self.tag }
            },
            RequesterStage::Written => {
                self.stage = RequesterStage::Synchronized;
                Action::DataBarrier
            },
            RequesterStage::Synchronized => {
                self.stage = RequesterStage::Resetting;
                Action::RequestReset
            },
            RequesterStage::Resetting => Action::Spin,
        }
    }
}

/// Once the reset has been requested the requester stays where it is.
pub proof fn lemma_resetting_is_final(requester: SwitchRequester, steps: nat)
    requires
        requester.is_resetting(),
    ensures
        requester.after(steps) == requester,
    decreases steps,
{
    if steps > 0 {
        lemma_resetting_is_final(requester, (steps - 1) as nat);
    }
}

/// The whole course of a request: the tag is written, then the barrier, then
/// the reset request, and every step after that spins.
pub proof fn lemma_request_sequence(tag: u32, steps: nat)
    ensures
        SwitchRequester::new(tag).after(0).next_action() == (Action::WriteCell { tag }),
        SwitchRequester::new(tag).after(1).next_action() == Action::DataBarrier,
        SwitchRequester::new(tag).after(2).next_action() == Action::RequestReset,
        steps >= 3 ==> SwitchRequester::new(tag).after(steps).next_action() == Action::Spin,
{
    let start = SwitchRequester::new(tag);
    reveal_with_fuel(SwitchRequester::after, 4);
    assert(start.after(3) == (SwitchRequester { tag, stage: RequesterStage::Resetting }));
    if steps >= 3 {
        lemma_after_splits(start, 3, (steps - 3) as nat);
        lemma_resetting_is_final(start.after(3), (steps - 3) as nat);
    }
}

/// Stepping `first` times and then `second` times is stepping `first + second`
/// times.
pub proof fn lemma_after_splits(requester: SwitchRequester, first: nat, second: nat)
    ensures
        requester.after(first + second) == requester.after(first).after(second),
    decreases first,
{
    if first > 0 {
        lemma_after_splits(requester.next(), (first - 1) as nat, second);
    }
}

} // verus!
