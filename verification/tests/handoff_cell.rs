use boot_handoff::{HandoffCell, HANDOFF_CELL_ADDRESS, NEUTRAL_TAG, TAG_IMAGE_A, TAG_IMAGE_B};

#[test]
fn cell_sits_near_the_top_of_ram() {
    assert_eq!(HANDOFF_CELL_ADDRESS, 0x2001_FFF8);
}

#[test]
fn neutral_tag_is_zero_and_names_no_image() {
    assert_eq!(NEUTRAL_TAG, 0);
    assert_ne!(NEUTRAL_TAG, TAG_IMAGE_A);
    assert_ne!(NEUTRAL_TAG, TAG_IMAGE_B);
}

#[test]
fn new_cell_holds_its_residue() {
    assert_eq!(HandoffCell::new(0x1234_5678).peek(), 0x1234_5678);
    assert_eq!(HandoffCell::new(u32::MAX).peek(), u32::MAX);
}

#[test]
fn write_replaces_the_word() {
    let mut cell = HandoffCell::new(0xFFFF_FFFF);
    cell.write(TAG_IMAGE_B);
    assert_eq!(cell.peek(), TAG_IMAGE_B);
    cell.write(TAG_IMAGE_A);
    assert_eq!(cell.peek(), TAG_IMAGE_A);
}

#[test]
fn read_and_clear_returns_what_was_written() {
    let mut cell = HandoffCell::new(0);
    cell.write(TAG_IMAGE_B);
    assert_eq!(cell.read_and_clear(), TAG_IMAGE_B);
}

#[test]
fn read_and_clear_leaves_the_cell_neutral_whatever_it_held() {
    for held in [0u32, 1, TAG_IMAGE_A, TAG_IMAGE_B, 0x8000_0000, u32::MAX] {
        let mut cell = HandoffCell::new(held);
        assert_eq!(cell.read_and_clear(), held);
        assert_eq!(cell.peek(), NEUTRAL_TAG);
    }
}

#[test]
fn reading_again_at_once_yields_the_neutral_tag() {
    let mut cell = HandoffCell::new(0);
    cell.write(TAG_IMAGE_A);
    assert_eq!(cell.read_and_clear(), TAG_IMAGE_A);
    assert_eq!(cell.read_and_clear(), NEUTRAL_TAG);
    assert_eq!(cell.read_and_clear(), NEUTRAL_TAG);
}

#[test]
fn peek_does_not_consume() {
    let mut cell = HandoffCell::new(TAG_IMAGE_B);
    assert_eq!(cell.peek(), TAG_IMAGE_B);
    assert_eq!(cell.peek(), TAG_IMAGE_B);
    assert_eq!(cell.read_and_clear(), TAG_IMAGE_B);
}
