//! Boot handoff between two firmware images that share one microcontroller.
//!
//! Two independently linked images sit at fixed flash offsets. A running image
//! asks for the other one by leaving a tag in the handoff cell, a RAM word that
//! survives a warm reset, and resetting the core. The boot selector, which runs
//! first after every reset, consumes the tag, clears the cell, and hands control
//! to the image the tag names, or to the default image when the tag names none.
//!
//! Nothing in this crate touches hardware. The switch requester and the boot
//! selector are step functions: each step names the next hardware [`Action`],
//! the caller performs it and hands back the word it read, if any. The
//! [`Device`] is a model of the hardware that performs the same actions on
//! plain values, so that whole boots can be run, and reasoned about, off target.

pub mod action;
pub mod cell;
pub mod device;
pub mod image;
pub mod laws;
pub mod requester;
pub mod selector;

pub use action::Action;
pub use cell::{HandoffCell, HANDOFF_CELL_ADDRESS, NEUTRAL_TAG};
pub use device::{Control, Device, DeviceState, VectorTable, RESET_VECTOR_TABLE_BASE};
pub use image::{
    decode, Image, DEFAULT_IMAGE, ENTRY_OFFSET, IMAGE_A_BASE, IMAGE_B_BASE, TAG_IMAGE_A,
    TAG_IMAGE_B,
};
pub use requester::{RequesterStage, SwitchRequester};
pub use selector::{BootSelector, SelectorStage};
