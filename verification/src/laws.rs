//! What the protocol guarantees, stated over whole requests, resets and boots.

use vstd::prelude::*;
use crate::action::Action;
use crate::cell::NEUTRAL_TAG;
use crate::device::DeviceState;
use crate::image::{decode, Image};
use crate::requester::SwitchRequester;
use crate::selector::BootSelector;

verus! {

/// The switch requester does what a request is: stepped from its start
/// against any device, it has written the tag and asked for the reset after
/// three steps, and however long it is stepped after that, nothing more
/// changes.
pub proof fn law_requester_makes_request(device: DeviceState, tag: u32, steps: nat)
    requires
        steps >= 3,
    ensures
        device.driven_by_requester(SwitchRequester::new(tag), steps) == device.request_switch(tag),
{
    let start = SwitchRequester::new(tag);
    lemma_requester_settles(device, start, steps);
    reveal_with_fuel(DeviceState::driven_by_requester, 4);
    assert(device.driven_by_requester(start, 3) == device.request_switch(tag));
}

/// The boot selector does what a boot is: stepped from its start against any
/// device, it has cleared the cell, relocated the vector table and entered
/// the decoded image after seven steps, and however long it is stepped after
/// that, nothing more changes. What goes into its first step does not matter.
pub proof fn law_selector_makes_boot(
    device: DeviceState,
    default_image: Image,
    word: u32,
    steps: nat,
)
    requires
        steps >= 7,
    ensures
        device.driven_by_selector(BootSelector::new(default_image), word, steps) == device.boot(
            default_image,
        ),
{
    let start = BootSelector::new(default_image);
    lemma_selector_settles(device, start, word, steps);
    reveal_with_fuel(DeviceState::driven_by_selector, 8);
    assert(device.driven_by_selector(start, word, 7) == device.boot(default_image));
}

/// A tag that names no image never stops the boot and never picks an image of
/// its own: whatever else the handoff cell holds, the default image boots.
pub proof fn law_unnamed_tag_boots_default(device: DeviceState, default_image: Image)
    requires
        Image::from_tag(device.cell) is None,
    ensures
        decode(device.cell, default_image) == default_image,
        device.boot(default_image).runs(default_image),
{
}

/// Reading the handoff cell consumes it: whatever was read, the cell is
/// neutral afterwards, and reading it again at once yields the neutral tag. A
/// boot leaves it neutral too.
pub proof fn law_read_leaves_cell_neutral(device: DeviceState, default_image: Image)
    ensures
        device.yielded(Action::ReadAndClearCell) == device.cell,
        device.perform(Action::ReadAndClearCell).cell == NEUTRAL_TAG,
        device.perform(Action::ReadAndClearCell).yielded(Action::ReadAndClearCell) == NEUTRAL_TAG,
        device.boot(default_image).cell == NEUTRAL_TAG,
{
}

/// The round trip of a request: after an image has asked for `target` and the
/// reset has taken effect, the selector boots `target`, whatever the device
/// was doing before and whatever the default image is.
pub proof fn law_request_boots_target(device: DeviceState, target: Image, default_image: Image)
    ensures
        decode(target.tag(), default_image) == target,
        device.request_switch(target.tag()).warm_reset().yielded(Action::ReadAndClearCell)
            == target.tag(),
        device.request_switch(target.tag()).warm_reset().boot(default_image).runs(target),
{
}

/// The same round trip for any tag at all: the selector boots what the tag
/// decodes to.
pub proof fn law_request_boots_decoded(device: DeviceState, tag: u32, default_image: Image)
    ensures
        device.request_switch(tag).warm_reset().boot(default_image).runs(
            decode(tag, default_image),
        ),
{
}

/// A request is served once. The boot that follows it starts `target`; a
/// second boot with no request in between starts the default image, whether
/// it follows another reset or runs straight after the first.
pub proof fn law_request_is_served_once(device: DeviceState, target: Image, default_image: Image)
    ensures
        ({
            let first = device.request_switch(target.tag()).warm_reset().boot(default_image);
            &&& first.runs(target)
            &&& first.warm_reset().boot(default_image).runs(default_image)
            &&& first.boot(default_image).runs(default_image)
        }),
{
}

/// Booting is idempotent in its choice: once any boot has run, every later
/// boot without a request in between starts the default image.
pub proof fn law_boot_without_request_is_default(device: DeviceState, default_image: Image)
    ensures
        device.boot(default_image).warm_reset().boot(default_image).runs(default_image),
{
}

/// Stepping a requester beyond its reset request changes nothing more.
proof fn lemma_requester_settles(device: DeviceState, requester: SwitchRequester, steps: nat)
    requires
        steps >= requester.steps_to_reset(),
    ensures
        device.driven_by_requester(requester, steps) == device.driven_by_requester(
            requester,
            requester.steps_to_reset(),
        ),
    decreases steps,
{
    if steps > 0 {
        lemma_requester_settles(
            device.perform(requester.next_action()),
            requester.next(),
            (steps - 1) as nat,
        );
    }
}

/// Stepping a selector beyond its jump changes nothing more.
proof fn lemma_selector_settles(
    device: DeviceState,
    selector: BootSelector,
    word: u32,
    steps: nat,
)
    requires
        steps >= selector.steps_to_jump(),
    ensures
        device.driven_by_selector(selector, word, steps) == device.driven_by_selector(
            selector,
            word,
            selector.steps_to_jump(),
        ),
    decreases steps,
{
    if steps > 0 {
        let action = selector.next_action(word);
        lemma_selector_settles(
            device.perform(action),
            selector.next(word),
            device.yielded(action),
            (steps - 1) as nat,
        );
    }
}

} // verus!
