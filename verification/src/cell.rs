//! The handoff cell: one RAM word that carries a boot request across a reset.
//!
//! The word is kept out of start-up zero-initialisation, so it survives a warm
//! reset. It does not survive a power cycle: after power-on it holds an
//! arbitrary value. It means something only between a requester's write and the
//! selector's next read, and the selector clears it as it reads, so that a
//! request can never be served twice.

use vstd::prelude::*;
use crate::image::{decode, Image};

verus! {

/// Address of the handoff cell, near the top of RAM, where no image's linker
/// layout places anything else.
pub const HANDOFF_CELL_ADDRESS: u32 = 0x2001_FFF8;

/// The value that the boot selector leaves in the cell: it names no image.
pub const NEUTRAL_TAG: u32 = 0;

/// A model of the handoff cell. Its view is the word that the cell holds.
#[derive(Clone, Copy, Debug)]
pub struct HandoffCell {
    word: u32,
}

impl View for HandoffCell {
    type V = u32;

    closed spec fn view(&self) -> u32 {
        self.word
    }
}

impl HandoffCell {
    /// A cell as power-on leaves it: holding `residue`, which may be any value.
    pub fn new(residue: u32) -> (cell: HandoffCell)
        ensures
            cell@ == residue,
    {
        HandoffCell { word: residue }
    }

    /// Stores `tag` in the cell.
    pub fn write(&mut self, tag: u32)
        ensures
            final(self)@ == tag,
    {
        self.word = tag;
    }

    /// Returns the word in the cell and leaves the cell neutral, whatever it
    /// held.
    pub fn read_and_clear(&mut self) -> (tag: u32)
        ensures
            tag == old(self)@,
            final(self)@ == NEUTRAL_TAG,
    {
        let tag: u32 = self.word;
        self.word = NEUTRAL_TAG;
        tag
    }

    /// Reads the cell without consuming it. The protocol never does this; it
    /// is for observing a model.
    pub fn peek(&self) -> (word: u32)
        ensures
            word == self@,
    {
        self.word
    }
}

/// The neutral tag names no image, so a cleared cell always decodes to the
/// default image.
pub proof fn lemma_neutral_names_no_image(default_image: Image)
    ensures
        Image::from_tag(NEUTRAL_TAG) is None,
        decode(NEUTRAL_TAG, default_image) == default_image,
{
}

} // verus!
