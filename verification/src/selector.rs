//! The boot selector: the first code to run after every reset.
//!
//! It reads and clears the handoff cell, decodes the tag to an image, reads
//! the image's initial stack pointer and entry address from the first two
//! words of its vector table, points the vector-table-base register at the
//! image, and jumps. The two words are taken on trust: the selector does not
//! judge images. The register is written, and the write completed by
//! barriers, before the jump, so that no interrupt in the new image can be
//! served through the old table.
//!
//! Seen from outside the selector is either selecting or has jumped, and the
//! only way back from there is another reset.

use vstd::prelude::*;
use crate::action::Action;
use crate::image::{decode, Image};

verus! {

/// How far the boot selector has come. Every stage but `Jumped` is part of
/// selecting.
#[derive(Clone, Copy, Debug, PartialEq, Eq, Structural)]
pub enum SelectorStage {
    /// Nothing has been done: the handoff cell is read and cleared next.
    Start,
    /// The cell has been read and cleared: the next word in is its tag.
    AwaitingTag,
    /// The tag has been decoded to `target`: the next word in is the
    /// target's initial stack pointer.
    AwaitingStackPointer { target: Image },
    /// The next word in is the target's entry address.
    AwaitingEntry { target: Image, stack_pointer: u32 },
    /// The vector table has been relocated: the data barrier comes next.
    Relocated { stack_pointer: u32, entry: u32 },
    /// The relocation is complete: the instruction barrier comes next.
    Synchronized { stack_pointer: u32, entry: u32 },
    /// All is set: the jump comes next.
    Ready { stack_pointer: u32, entry: u32 },
    /// Control has gone to the image.
    Jumped,
}

/// The boot selector, as a machine that is stepped by its caller.
///
/// Drive it with `loop { word = perform(selector.step(word)) }`, where
/// `perform` returns the word that the action yielded, or anything if it
/// yielded none. On hardware the loop ends inside `perform`, at the jump.
#[derive(Clone, Copy, Debug, PartialEq, Eq, Structural)]
pub struct BootSelector {
    /// The image to boot when the tag names none.
    pub default_image: Image,
    /// How far the selector has come.
    pub stage: SelectorStage,
}

impl BootSelector {
    /// The action that the next step asks for, when `word` is what the
    /// previous action yielded.
    pub open spec fn next_action(self, word: u32) -> Action {
        match self.stage {
            SelectorStage::Start => Action::ReadAndClearCell,
            SelectorStage::AwaitingTag => Action::ReadWord {
                address: decode(word, self.default_image).base_address(),
            },
            SelectorStage::AwaitingStackPointer { target } => Action::ReadWord {
                address: target.entry_address(),
            },
            SelectorStage::AwaitingEntry { target, .. } => Action::SetVectorTableBase {
                base: target.base_address(),
            },
            SelectorStage::Relocated { .. } => Action::DataBarrier,
            SelectorStage::Synchronized { .. } => Action::InstructionBarrier,
            SelectorStage::Ready { stack_pointer, entry } => Action::Jump { stack_pointer, entry },
            SelectorStage::Jumped => Action::Spin,
        }
    }

    /// The selector after its next step, when `word` is what the previous
    /// action yielded.
    pub open spec fn next(self, word: u32) -> BootSelector {
        let stage = match self.stage {
            SelectorStage::Start => SelectorStage::AwaitingTag,
            SelectorStage::AwaitingTag => SelectorStage::AwaitingStackPointer {
                target: decode(word, self.default_image),
            },
            SelectorStage::AwaitingStackPointer { target } => SelectorStage::AwaitingEntry {
                target,
                stack_pointer: word,
            },
            SelectorStage::AwaitingEntry { stack_pointer, .. } => SelectorStage::Relocated {
                stack_pointer,
                entry: word,
            },
            SelectorStage::Relocated { stack_pointer, entry } => SelectorStage::Synchronized {
                stack_pointer,
                entry,
            },
            SelectorStage::Synchronized { stack_pointer, entry } => SelectorStage::Ready {
                stack_pointer,
                entry,
            },
            SelectorStage::Ready { .. } => SelectorStage::Jumped,
            SelectorStage::Jumped => SelectorStage::Jumped,
        };
        BootSelector { default_image: self.default_image, stage }
    }

    /// The selector after one step for each of `words`, in order.
    pub open spec fn after(self, words: Seq<u32>) -> BootSelector
        decreases words.len(),
    {
        if words.len() == 0 {
            self
        } else {
            self.after(words.drop_last()).next(words.last())
        }
    }

    /// The number of steps left until the selector has jumped.
    pub open spec fn steps_to_jump(self) -> nat {
        match self.stage {
            SelectorStage::Start => 7,
            SelectorStage::AwaitingTag => 6,
            SelectorStage::AwaitingStackPointer { .. } => 5,
            SelectorStage::AwaitingEntry { .. } => 4,
            SelectorStage::Relocated { .. } => 3,
            SelectorStage::Synchronized { .. } => 2,
            SelectorStage::Ready { .. } => 1,
            SelectorStage::Jumped => 0,
        }
    }

    /// Whether control has gone to the image.
    pub open spec fn spec_has_jumped(self) -> bool {
        self.stage is Jumped
    }

    /// A selector that falls back to `default_image`, with nothing done yet.
    pub open spec fn spec_new(default_image: Image) -> BootSelector {
        BootSelector { default_image, stage: SelectorStage::Start }
    }

    /// A selector that falls back to `default_image`, with nothing done yet.
    #[verifier::when_used_as_spec(spec_new)]
    pub fn new(default_image: Image) -> (selector: BootSelector)
        ensures
            selector == BootSelector::spec_new(default_image),
    {
        BootSelector { default_image, stage: SelectorStage::Start }
    }

    /// Whether control has gone to the image, so that nothing is left to do.
    #[verifier::when_used_as_spec(spec_has_jumped)]
    pub fn has_jumped(self) -> (jumped: bool)
        ensures
            jumped == self.spec_has_jumped(),
    {
        match self.stage {
            SelectorStage::Jumped => true,
            _ => false,
        }
    }

    /// Advances the selector by one step and returns the action to perform
    /// before the next one. `word` is what the previous action yielded; it is
    /// ignored where that action yielded nothing, and in the first step.
    pub fn step(&mut self, word: u32) -> (action: Action)
        ensures
            action == old(self).next_action(word),
            *final(self) == old(self).next(word),
    {
        match self.stage {
            SelectorStage::Start => {
                self.stage = SelectorStage::AwaitingTag;
                Action::ReadAndClearCell
            },
            SelectorStage::AwaitingTag => {
                let target = decode(word, self.default_image);
                self.stage = SelectorStage::AwaitingStackPointer { target };
                Action::ReadWord { address: target.base_address() }
            },
            SelectorStage::AwaitingStackPointer { target } => {
                self.stage = SelectorStage::AwaitingEntry { target, stack_pointer: word };
                Action::ReadWord { address: target.entry_address() }
            },
            SelectorStage::AwaitingEntry { target, stack_pointer } => {
                self.stage = SelectorStage::Relocated { stack_pointer, entry: word };
                Action::SetVectorTableBase { base: target.base_address() }
            },
            SelectorStage::Relocated { stack_pointer, entry } => {
                self.stage = SelectorStage::Synchronized { stack_pointer, entry };
                Action::DataBarrier
            },
            SelectorStage::Synchronized { stack_pointer, entry } => {
                self.stage = SelectorStage::Ready { stack_pointer, entry };
                Action::InstructionBarrier
            },
            SelectorStage::Ready { stack_pointer, entry } => {
                self.stage = SelectorStage::Jumped;
                Action::Jump { stack_pointer, entry }
            },
            SelectorStage::Jumped => Action::Spin,
        }
    }
}

/// Once the selector has jumped it stays where it is, whatever comes in.
pub proof fn lemma_jumped_is_final(selector: BootSelector, words: Seq<u32>)
    requires
        selector.has_jumped(),
    ensures
        selector.after(words) == selector,
    decreases words.len(),
{
    if words.len() > 0 {
        lemma_jumped_is_final(selector, words.drop_last());
    }
}

/// The whole course of a boot. `words[k]` is what comes into step `k`, so
/// `words[1]` is the tag, `words[2]` the initial stack pointer and `words[3]`
/// the entry address. The selector reads and clears the cell, reads the two
/// words of the decoded image's vector table, relocates the vector table,
/// issues both barriers, and jumps with the two words just as they were read.
/// Every step after the jump spins.
pub proof fn lemma_selection_sequence(default_image: Image, words: Seq<u32>, step: int)
    requires
        0 <= step < words.len(),
    ensures
        ({
            let target = decode(words[1], default_image);
            let action = BootSelector::new(default_image).after(words.take(step)).next_action(
                words[step],
            );
            &&& step == 0 ==> action == Action::ReadAndClearCell
            &&& step == 1 ==> action == (Action::ReadWord { address: target.base_address() })
            &&& step == 2 ==> action == (Action::ReadWord { address: target.entry_address() })
            &&& step == 3 ==> action == (Action::SetVectorTableBase {
                base: target.base_address(),
            })
            &&& step == 4 ==> action == Action::DataBarrier
            &&& step == 5 ==> action == Action::InstructionBarrier
            &&& step == 6 ==> action == (Action::Jump { stack_pointer: words[2], entry: words[3] })
            &&& step >= 7 ==> action == Action::Spin
        }),
{
    let start = BootSelector::new(default_image);
    lemma_course(start, words, step);
}

/// The stage that the selector has reached after `step` steps from the start.
proof fn lemma_course(start: BootSelector, words: Seq<u32>, step: int)
    requires
        start.stage is Start,
        0 <= step <= words.len(),
    ensures
        ({
            let target = decode(words[1], start.default_image);
            let reached = start.after(words.take(step));
            &&& reached.default_image == start.default_image
            &&& step == 0 ==> reached.stage == SelectorStage::Start
            &&& step == 1 ==> reached.stage == SelectorStage::AwaitingTag
            &&& step == 2 ==> reached.stage == (SelectorStage::AwaitingStackPointer { target })
            &&& step == 3 ==> reached.stage == (SelectorStage::AwaitingEntry {
                target,
                stack_pointer: words[2],
            })
            &&& step == 4 ==> reached.stage == (SelectorStage::Relocated {
                stack_pointer: words[2],
                entry: words[3],
            })
            &&& step == 5 ==> reached.stage == (SelectorStage::Synchronized {
                stack_pointer: words[2],
                entry: words[3],
            })
            &&& step == 6 ==> reached.stage == (SelectorStage::Ready {
                stack_pointer: words[2],
                entry: words[3],
            })
            &&& step >= 7 ==> reached.stage == SelectorStage::Jumped
        }),
    decreases step,
{
    if step > 0 {
        lemma_course(start, words, step - 1);
        assert(words.take(step).drop_last() == words.take(step - 1));
        assert(words.take(step).last() == words[step - 1]);
    }
}

} // verus!
