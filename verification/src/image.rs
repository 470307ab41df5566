//! The application images, and the tags and flash addresses that name them.
//!
//! These values are a contract between the boot selector and every image: a tag
//! written by one build must mean the same image to all the others, and each
//! base address must be the load origin that the image was linked for.

use vstd::prelude::*;

verus! {

/// Tag that asks the boot selector for image A.
pub const TAG_IMAGE_A: u32 = 0xDEAD_BEEF;

/// Tag that asks the boot selector for image B.
pub const TAG_IMAGE_B: u32 = 0xCAFE_BABE;

/// Flash address of image A's vector table: right behind the 16 KiB selector.
pub const IMAGE_A_BASE: u32 = 0x0800_4000;

/// Flash address of image B's vector table: 128 KiB behind image A's.
pub const IMAGE_B_BASE: u32 = 0x0802_4000;

/// Byte offset of the entry address in a vector table. The initial stack
/// pointer is the word at offset 0.
pub const ENTRY_OFFSET: u32 = 4;

/// The image booted when the handoff cell names none.
pub const DEFAULT_IMAGE: Image = Image::A;

/// One of the two application images.
#[derive(Clone, Copy, Debug, PartialEq, Eq, Structural)]
pub enum Image {
    A,
    B,
}

impl Image {
    /// The tag that names this image in the handoff cell.
    pub open spec fn spec_tag(self) -> u32 {
        match self {
            Image::A => TAG_IMAGE_A,
            Image::B => TAG_IMAGE_B,
        }
    }

    /// The flash address at which this image's vector table starts.
    pub open spec fn spec_base_address(self) -> u32 {
        match self {
            Image::A => IMAGE_A_BASE,
            Image::B => IMAGE_B_BASE,
        }
    }

    /// The address of the word that holds this image's entry address.
    pub open spec fn spec_entry_address(self) -> u32 {
        (self.spec_base_address() + ENTRY_OFFSET) as u32
    }

    /// The image that `tag` names, if it names one.
    pub open spec fn spec_from_tag(tag: u32) -> Option<Image> {
        if tag == TAG_IMAGE_A {
            Some(Image::A)
        } else if tag == TAG_IMAGE_B {
            Some(Image::B)
        } else {
            None
        }
    }

    /// The tag that names this image in the handoff cell.
    #[verifier::when_used_as_spec(spec_tag)]
    pub fn tag(self) -> (tag: u32)
        ensures
            tag == self.spec_tag(),
    {
        match self {
            Image::A => TAG_IMAGE_A,
            Image::B => TAG_IMAGE_B,
        }
    }

    /// The flash address at which this image's vector table starts. The word at
    /// this address is the image's initial stack pointer.
    #[verifier::when_used_as_spec(spec_base_address)]
    pub fn base_address(self) -> (base: u32)
        ensures
            base == self.spec_base_address(),
    {
        match self {
            Image::A => IMAGE_A_BASE,
            Image::B => IMAGE_B_BASE,
        }
    }

    /// The address of the second word of this image's vector table, which holds
    /// the image's entry address.
    #[verifier::when_used_as_spec(spec_entry_address)]
    pub fn entry_address(self) -> (address: u32)
        ensures
            address == self.spec_entry_address(),
            address == self.base_address() + ENTRY_OFFSET,
    {
        self.base_address() + ENTRY_OFFSET
    }

    /// The image that `tag` names: `Some` exactly for the two image tags.
    #[verifier::when_used_as_spec(spec_from_tag)]
    pub fn from_tag(tag: u32) -> (image: Option<Image>)
        ensures
            image == Image::spec_from_tag(tag),
            image matches Some(named) ==> named.tag() == tag,
            image is None <==> tag != TAG_IMAGE_A && tag != TAG_IMAGE_B,
    {
        if tag == TAG_IMAGE_A {
            Some(Image::A)
        } else if tag == TAG_IMAGE_B {
            Some(Image::B)
        } else {
            None
        }
    }
}

/// The image that the boot selector starts for `tag`: the image that the tag
/// names, and `default_image` for every other value.
pub open spec fn spec_decode(tag: u32, default_image: Image) -> Image {
    match Image::spec_from_tag(tag) {
        Some(named) => named,
        None => default_image,
    }
}

/// Maps the tag found in the handoff cell to the image to boot. A tag that
/// names no image, such as whatever the cell holds after power-on, never
/// stops the boot: it resolves to `default_image`.
#[verifier::when_used_as_spec(spec_decode)]
pub fn decode(tag: u32, default_image: Image) -> (image: Image)
    ensures
        image == spec_decode(tag, default_image),
        tag == TAG_IMAGE_A ==> image == Image::A,
        tag == TAG_IMAGE_B ==> image == Image::B,
        tag != TAG_IMAGE_A && tag != TAG_IMAGE_B ==> image == default_image,
{
    match Image::from_tag(tag) {
        Some(named) => named,
        None => default_image,
    }
}

/// Tags and images correspond one to one: an image's tag names that image and
/// no other, and two images with one base address are one image.
pub proof fn lemma_tags_and_bases_name_one_image(first: Image, second: Image)
    ensures
        Image::from_tag(first.tag()) == Some(first),
        first.tag() == second.tag() ==> first == second,
        first.base_address() == second.base_address() ==> first == second,
{
}

} // verus!
