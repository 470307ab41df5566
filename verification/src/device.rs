//! A model of the hardware that the protocol runs on.
//!
//! The model holds what the protocol can see or change: the handoff cell, the
//! first two words of each image's vector table, the vector-table-base
//! register, who has control of the processor, and whether a reset has been
//! requested. It performs the same actions as the hardware, on plain values,
//! so that requests, resets and boots can be run in any order off target.

use vstd::prelude::*;
use crate::action::Action;
use crate::cell::{HandoffCell, HANDOFF_CELL_ADDRESS, NEUTRAL_TAG};
use crate::image::{decode, Image};
use crate::requester::{RequesterStage, SwitchRequester};
use crate::selector::{BootSelector, SelectorStage};

verus! {

/// What the vector-table-base register holds after a reset: the address of the
/// selector's own table.
pub const RESET_VECTOR_TABLE_BASE: u32 = 0;

/// The first two words of an image's vector table.
#[derive(Clone, Copy, Debug, PartialEq, Eq, Structural)]
pub struct VectorTable {
    /// Word 0: the initial stack pointer.
    pub stack_pointer: u32,
    /// Word 1: the entry address.
    pub entry: u32,
}

/// Who has control of the processor.
#[derive(Clone, Copy, Debug, PartialEq, Eq, Structural)]
pub enum Control {
    /// The boot selector, as after every reset.
    Selector,
    /// An image that was entered at `entry` with `stack_pointer` as its stack
    /// pointer.
    Image { stack_pointer: u32, entry: u32 },
}

/// The state of a device: the view of a [`Device`].
#[derive(Clone, Copy, Debug, PartialEq, Eq, Structural)]
pub struct DeviceState {
    /// The word in the handoff cell.
    pub cell: u32,
    /// The head of image A's vector table, in flash.
    pub image_a: VectorTable,
    /// The head of image B's vector table, in flash.
    pub image_b: VectorTable,
    /// The vector-table-base register.
    pub vector_table_base: u32,
    /// Who has control of the processor.
    pub control: Control,
    /// Whether a system reset has been requested and has not yet taken effect.
    pub reset_requested: bool,
}

impl DeviceState {
    /// A device as power-on leaves it. The handoff cell holds `residue`, which
    /// may be any value.
    pub open spec fn power_on(image_a: VectorTable, image_b: VectorTable, residue: u32)
        -> DeviceState {
        DeviceState {
            cell: residue,
            image_a,
            image_b,
            vector_table_base: RESET_VECTOR_TABLE_BASE,
            control: Control::Selector,
            reset_requested: false,
        }
    }

    /// The head of `image`'s vector table.
    pub open spec fn vector_table(self, image: Image) -> VectorTable {
        match image {
            Image::A => self.image_a,
            Image::B => self.image_b,
        }
    }

    /// The word that a plain read at `address` yields: a word of a vector
    /// table head, the word in the handoff cell, and zero where the model
    /// holds nothing.
    pub open spec fn word_at(self, address: u32) -> u32 {
        if address == HANDOFF_CELL_ADDRESS {
            self.cell
        } else if address == Image::A.base_address() {
            self.image_a.stack_pointer
        } else if address == Image::A.entry_address() {
            self.image_a.entry
        } else if address == Image::B.base_address() {
            self.image_b.stack_pointer
        } else if address == Image::B.entry_address() {
            self.image_b.entry
        } else {
            0
        }
    }

    /// The word that performing `action` yields, and zero for an action that
    /// yields none.
    pub open spec fn yielded(self, action: Action) -> u32 {
        match action {
            Action::ReadAndClearCell => self.cell,
            Action::ReadWord { address } => self.word_at(address),
            _ => 0,
        }
    }

    /// The device after `action` has been performed.
    pub open spec fn perform(self, action: Action) -> DeviceState {
        match action {
            Action::WriteCell { tag } => DeviceState { cell: tag, ..self },
            Action::ReadAndClearCell => DeviceState { cell: NEUTRAL_TAG, ..self },
            Action::SetVectorTableBase { base } => DeviceState { vector_table_base: base, ..self },
            Action::Jump { stack_pointer, entry } => DeviceState {
                control: Control::Image { stack_pointer, entry },
                ..self
            },
            Action::RequestReset => DeviceState { reset_requested: true, ..self },
            Action::ReadWord { .. }
            | Action::DataBarrier
            | Action::InstructionBarrier
            | Action::Spin => self,
        }
    }

    /// The device after `requester` has been stepped `steps` times and each
    /// of its actions performed.
    pub open spec fn driven_by_requester(self, requester: SwitchRequester, steps: nat)
        -> DeviceState
        decreases steps,
    {
        if steps == 0 {
            self
        } else {
            self.perform(requester.next_action()).driven_by_requester(
                requester.next(),
                (steps - 1) as nat,
            )
        }
    }

    /// The device after `selector` has been stepped `steps` times, each of
    /// its actions performed, and each yielded word handed to the next step.
    /// `word` is what goes into the first of these steps.
    pub open spec fn driven_by_selector(self, selector: BootSelector, word: u32, steps: nat)
        -> DeviceState
        decreases steps,
    {
        if steps == 0 {
            self
        } else {
            let action = selector.next_action(word);
            self.perform(action).driven_by_selector(
                selector.next(word),
                self.yielded(action),
                (steps - 1) as nat,
            )
        }
    }

    /// The device after a reset that did not remove power: the selector has
    /// control again, and the handoff cell holds what it held.
    pub open spec fn warm_reset(self) -> DeviceState {
        DeviceState {
            vector_table_base: RESET_VECTOR_TABLE_BASE,
            control: Control::Selector,
            reset_requested: false,
            ..self
        }
    }

    /// The device after power was removed and applied again: as after a warm
    /// reset, but the handoff cell holds `residue`, which may be any value.
    pub open spec fn power_cycle(self, residue: u32) -> DeviceState {
        DeviceState { cell: residue, ..self.warm_reset() }
    }

    /// The device after a switch request for `tag` has run up to its reset
    /// request: the cell holds the tag and the reset is pending.
    pub open spec fn request_switch(self, tag: u32) -> DeviceState {
        DeviceState { cell: tag, reset_requested: true, ..self }
    }

    /// The device after the boot selector has run to its jump: the cell is
    /// neutral, and the image that the cell named, or `default_image` if it
    /// named none, has control, entered as its vector table says, with the
    /// vector-table-base register pointing at that table.
    pub open spec fn boot(self, default_image: Image) -> DeviceState {
        let target = decode(self.cell, default_image);
        DeviceState {
            cell: NEUTRAL_TAG,
            vector_table_base: target.base_address(),
            control: Control::Image {
                stack_pointer: self.vector_table(target).stack_pointer,
                entry: self.vector_table(target).entry,
            },
            ..self
        }
    }

    /// Whether `image` has control: it was entered as its vector table says,
    /// and the vector-table-base register points at that table.
    pub open spec fn spec_runs(self, image: Image) -> bool {
        &&& self.vector_table_base == image.base_address()
        &&& self.control == (Control::Image {
            stack_pointer: self.vector_table(image).stack_pointer,
            entry: self.vector_table(image).entry,
        })
    }

    /// Whether `image` has control: it was entered as its vector table says,
    /// and the vector-table-base register points at that table.
    #[verifier::when_used_as_spec(spec_runs)]
    pub fn runs(self, image: Image) -> (running: bool)
        ensures
            running == self.spec_runs(image),
    {
        let table = match image {
            Image::A => self.image_a,
            Image::B => self.image_b,
        };
        self.vector_table_base == image.base_address() && self.control == (Control::Image {
            stack_pointer: table.stack_pointer,
            entry: table.entry,
        })
    }
}

/// A device that can be driven: it performs actions, resets, and runs the
/// switch requester and the boot selector to their ends.
#[derive(Clone, Copy, Debug)]
pub struct Device {
    cell: HandoffCell,
    image_a: VectorTable,
    image_b: VectorTable,
    vector_table_base: u32,
    control: Control,
    reset_requested: bool,
}

impl View for Device {
    type V = DeviceState;

    closed spec fn view(&self) -> DeviceState {
        DeviceState {
            cell: self.cell@,
            image_a: self.image_a,
            image_b: self.image_b,
            vector_table_base: self.vector_table_base,
            control: self.control,
            reset_requested: self.reset_requested,
        }
    }
}

impl Device {
    /// A device with the given images in flash, as power-on leaves it. The
    /// handoff cell holds `residue`, which may be any value.
    pub fn new(image_a: VectorTable, image_b: VectorTable, residue: u32) -> (device: Device)
        ensures
            device@ == DeviceState::power_on(image_a, image_b, residue),
    {
        Device {
            cell: HandoffCell::new(residue),
            image_a,
            image_b,
            vector_table_base: RESET_VECTOR_TABLE_BASE,
            control: Control::Selector,
            reset_requested: false,
        }
    }

    /// The state of the device.
    pub fn state(&self) -> (state: DeviceState)
        ensures
            state == self@,
    {
        DeviceState {
            cell: self.cell.peek(),
            image_a: self.image_a,
            image_b: self.image_b,
            vector_table_base: self.vector_table_base,
            control: self.control,
            reset_requested: self.reset_requested,
        }
    }

    /// Reads the word at `address`.
    fn read_word(&self, address: u32) -> (word: u32)
        ensures
            word == self@.word_at(address),
    {
        if address == HANDOFF_CELL_ADDRESS {
            self.cell.peek()
        } else if address == Image::A.base_address() {
            self.image_a.stack_pointer
        } else if address == Image::A.entry_address() {
            self.image_a.entry
        } else if address == Image::B.base_address() {
            self.image_b.stack_pointer
        } else if address == Image::B.entry_address() {
            self.image_b.entry
        } else {
            0
        }
    }

    /// Performs `action` and returns the word that it yields, or zero if it
    /// yields none.
    pub fn perform(&mut self, action: Action) -> (word: u32)
        ensures
            word == old(self)@.yielded(action),
            final(self)@ == old(self)@.perform(action),
    {
        match action {
            Action::WriteCell { tag } => {
                self.cell.write(tag);
                0
            },
            Action::ReadAndClearCell => self.cell.read_and_clear(),
            Action::ReadWord { address } => self.read_word(address),
            Action::SetVectorTableBase { base } => {
                self.vector_table_base = base;
                0
            },
            Action::Jump { stack_pointer, entry } => {
                self.control = Control::Image { stack_pointer, entry };
                0
            },
            Action::RequestReset => {
                self.reset_requested = true;
                0
            },
            Action::DataBarrier | Action::InstructionBarrier | Action::Spin => 0,
        }
    }

    /// Resets the device without removing power. The handoff cell survives.
    pub fn warm_reset(&mut self)
        ensures
            final(self)@ == old(self)@.warm_reset(),
    {
        self.vector_table_base = RESET_VECTOR_TABLE_BASE;
        self.control = Control::Selector;
        self.reset_requested = false;
    }

    /// Removes power and applies it again. The handoff cell does not survive:
    /// it comes back holding `residue`.
    pub fn power_cycle(&mut self, residue: u32)
        ensures
            final(self)@ == old(self)@.power_cycle(residue),
    {
        self.warm_reset();
        self.cell = HandoffCell::new(residue);
    }

    /// Runs a switch request for `tag` until it has asked for the reset.
    pub fn request_switch(&mut self, tag: u32)
        ensures
            final(self)@ == old(self)@.request_switch(tag),
    {
        let ghost initial = self@;
        let mut requester = SwitchRequester::new(tag);
        while !requester.is_resetting()
            invariant
                request_progress(initial, requester, tag, self@),
            decreases requester.steps_to_reset(),
        {
            let action = requester.step();
            self.perform(action);
        }
    }

    /// Runs the boot selector, with `default_image` as its fallback, until it
    /// has jumped.
    pub fn boot(&mut self, default_image: Image)
        ensures
            final(self)@ == old(self)@.boot(default_image),
    {
        let ghost initial = self@;
        let mut selector = BootSelector::new(default_image);
        let mut word: u32 = 0;
        while !selector.has_jumped()
            invariant
                boot_progress(initial, selector, default_image, word, self@),
            decreases selector.steps_to_jump(),
        {
            let action = selector.step(word);
            word = self.perform(action);
        }
    }
}

/// What holds between the steps of a switch request for `tag` that started on
/// `initial` and has brought the device to `current`.
spec fn request_progress(
    initial: DeviceState,
    requester: SwitchRequester,
    tag: u32,
    current: DeviceState,
) -> bool {
    &&& requester.tag == tag
    &&& match requester.stage {
        RequesterStage::Start => current == initial,
        RequesterStage::Written | RequesterStage::Synchronized => current == (DeviceState {
            cell: tag,
            ..initial
        }),
        RequesterStage::Resetting => current == initial.request_switch(tag),
    }
}

/// What holds between the steps of a boot that started on `initial` and has
/// brought the device to `current`, when `word` is what the last action
/// yielded.
spec fn boot_progress(
    initial: DeviceState,
    selector: BootSelector,
    default_image: Image,
    word: u32,
    current: DeviceState,
) -> bool {
    let chosen = decode(initial.cell, default_image);
    let table = initial.vector_table(chosen);
    let cleared = DeviceState { cell: NEUTRAL_TAG, ..initial };
    let relocated = DeviceState { vector_table_base: chosen.base_address(), ..cleared };
    &&& selector.default_image == default_image
    &&& match selector.stage {
        SelectorStage::Start => current == initial,
        SelectorStage::AwaitingTag => current == cleared && word == initial.cell,
        SelectorStage::AwaitingStackPointer { target } => {
            &&& current == cleared
            &&& target == chosen
            &&& word == table.stack_pointer
        },
        SelectorStage::AwaitingEntry { target, stack_pointer } => {
            &&& current == cleared
            &&& target == chosen
            &&& stack_pointer == table.stack_pointer
            &&& word == table.entry
        },
        SelectorStage::Relocated { stack_pointer, entry }
        | SelectorStage::Synchronized { stack_pointer, entry }
        | SelectorStage::Ready { stack_pointer, entry } => {
            &&& current == relocated
            &&& stack_pointer == table.stack_pointer
            &&& entry == table.entry
        },
        SelectorStage::Jumped => current == initial.boot(default_image),
    }
}

} // verus!
