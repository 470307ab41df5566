use boot_handoff::{
    Action, BootSelector, Image, SelectorStage, IMAGE_A_BASE, IMAGE_B_BASE, TAG_IMAGE_A,
    TAG_IMAGE_B,
};

const STACK: u32 = 0x2002_0000;
const ENTRY: u32 = 0x0802_4101;

#[test]
fn new_selector_has_done_nothing() {
    let selector = BootSelector::new(Image::A);
    assert_eq!(selector.default_image, Image::A);
    assert_eq!(selector.stage, SelectorStage::Start);
    assert!(!selector.has_jumped());
}

#[test]
fn selector_boots_image_b_for_its_tag() {
    let mut selector = BootSelector::new(Image::A);
    assert_eq!(selector.step(0), Action::ReadAndClearCell);
    assert_eq!(selector.stage, SelectorStage::AwaitingTag);
    assert_eq!(selector.step(TAG_IMAGE_B), Action::ReadWord { address: 0x0802_4000 });
    assert_eq!(selector.stage, SelectorStage::AwaitingStackPointer { target: Image::B });
    assert_eq!(selector.step(STACK), Action::ReadWord { address: 0x0802_4004 });
    assert_eq!(
        selector.stage,
        SelectorStage::AwaitingEntry { target: Image::B, stack_pointer: STACK }
    );
    assert_eq!(selector.step(ENTRY), Action::SetVectorTableBase { base: IMAGE_B_BASE });
    assert_eq!(selector.stage, SelectorStage::Relocated { stack_pointer: STACK, entry: ENTRY });
    assert_eq!(selector.step(0), Action::DataBarrier);
    assert_eq!(selector.stage, SelectorStage::Synchronized { stack_pointer: STACK, entry: ENTRY });
    assert_eq!(selector.step(0), Action::InstructionBarrier);
    assert_eq!(selector.stage, SelectorStage::Ready { stack_pointer: STACK, entry: ENTRY });
    assert!(!selector.has_jumped());
    assert_eq!(selector.step(0), Action::Jump { stack_pointer: STACK, entry: ENTRY });
    assert_eq!(selector.stage, SelectorStage::Jumped);
    assert!(selector.has_jumped());
}

#[test]
fn selector_boots_image_a_for_its_tag_even_if_b_is_default() {
    let mut selector = BootSelector::new(Image::B);
    selector.step(0);
    assert_eq!(selector.step(TAG_IMAGE_A), Action::ReadWord { address: 0x0800_4000 });
    assert_eq!(selector.step(1), Action::ReadWord { address: 0x0800_4004 });
    assert_eq!(selector.step(2), Action::SetVectorTableBase { base: IMAGE_A_BASE });
}

#[test]
fn selector_boots_the_default_for_an_unknown_tag() {
    for tag in [0u32, u32::MAX, 0xDEAD_BEEE, 0x1234_5678] {
        let mut selector = BootSelector::new(Image::A);
        selector.step(0);
        assert_eq!(selector.step(tag), Action::ReadWord { address: IMAGE_A_BASE });
        selector.step(0);
        assert_eq!(selector.step(0), Action::SetVectorTableBase { base: IMAGE_A_BASE });

        let mut selector = BootSelector::new(Image::B);
        selector.step(0);
        assert_eq!(selector.step(tag), Action::ReadWord { address: IMAGE_B_BASE });
        selector.step(0);
        assert_eq!(selector.step(0), Action::SetVectorTableBase { base: IMAGE_B_BASE });
    }
}

#[test]
fn selector_relocates_before_it_jumps_with_both_barriers_between() {
    let mut selector = BootSelector::new(Image::A);
    let mut actions = Vec::new();
    for word in [0, TAG_IMAGE_B, STACK, ENTRY, 0, 0, 0] {
        actions.push(selector.step(word));
    }
    let relocate = actions
        .iter()
        .position(|a| matches!(a, Action::SetVectorTableBase { .. }))
        .unwrap();
    let data = actions.iter().position(|a| *a == Action::DataBarrier).unwrap();
    let instruction = actions.iter().position(|a| *a == Action::InstructionBarrier).unwrap();
    let jump = actions.iter().position(|a| matches!(a, Action::Jump { .. })).unwrap();
    assert!(relocate < data);
    assert!(data < instruction);
    assert!(instruction < jump);
    assert_eq!(jump, actions.len() - 1);
}

#[test]
fn selector_reads_the_cell_first_and_only_once() {
    let mut selector = BootSelector::new(Image::A);
    assert_eq!(selector.step(0xAAAA_AAAA), Action::ReadAndClearCell);
    let mut reads = 0;
    for word in [TAG_IMAGE_A, 1, 2, 3, 4, 5, 6, 7, 8] {
        if selector.step(word) == Action::ReadAndClearCell {
            reads += 1;
        }
    }
    assert_eq!(reads, 0);
}

#[test]
fn selector_ignores_what_comes_into_its_first_step() {
    for word in [0u32, TAG_IMAGE_A, TAG_IMAGE_B, u32::MAX] {
        let mut selector = BootSelector::new(Image::A);
        assert_eq!(selector.step(word), Action::ReadAndClearCell);
        assert_eq!(selector.stage, SelectorStage::AwaitingTag);
    }
}

#[test]
fn selector_passes_the_vector_table_words_on_unjudged() {
    for (stack, entry) in [(0u32, 0u32), (u32::MAX, u32::MAX), (3, 0x0800_0000)] {
        let mut selector = BootSelector::new(Image::A);
        let mut last = Action::Spin;
        for word in [0, TAG_IMAGE_A, stack, entry, 0, 0, 0] {
            last = selector.step(word);
        }
        assert_eq!(last, Action::Jump { stack_pointer: stack, entry });
    }
}

#[test]
fn selector_that_has_jumped_only_spins() {
    let mut selector = BootSelector::new(Image::A);
    for word in [0, TAG_IMAGE_B, STACK, ENTRY, 0, 0, 0] {
        selector.step(word);
    }
    assert!(selector.has_jumped());
    for word in [0, TAG_IMAGE_A, TAG_IMAGE_B, u32::MAX] {
        assert_eq!(selector.step(word), Action::Spin);
        assert_eq!(selector.stage, SelectorStage::Jumped);
        assert_eq!(selector.default_image, Image::A);
    }
}
