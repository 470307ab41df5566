use boot_handoff::{Action, RequesterStage, SwitchRequester, TAG_IMAGE_A, TAG_IMAGE_B};

#[test]
fn new_requester_has_done_nothing() {
    let requester = SwitchRequester::new(TAG_IMAGE_B);
    assert_eq!(requester.tag, TAG_IMAGE_B);
    assert_eq!(requester.stage, RequesterStage::Start);
    assert!(!requester.is_resetting());
}

#[test]
fn request_writes_then_synchronizes_then_resets_then_spins() {
    let mut requester = SwitchRequester::new(TAG_IMAGE_B);
    assert_eq!(requester.step(), Action::WriteCell { tag: TAG_IMAGE_B });
    assert_eq!(requester.stage, RequesterStage::Written);
    assert_eq!(requester.step(), Action::DataBarrier);
    assert_eq!(requester.stage, RequesterStage::Synchronized);
    assert!(!requester.is_resetting());
    assert_eq!(requester.step(), Action::RequestReset);
    assert_eq!(requester.stage, RequesterStage::Resetting);
    assert!(requester.is_resetting());
    assert_eq!(requester.step(), Action::Spin);
}

#[test]
fn requester_spins_for_good() {
    let mut requester = SwitchRequester::new(TAG_IMAGE_A);
    for _ in 0..3 {
        requester.step();
    }
    for _ in 0..1000 {
        assert_eq!(requester.step(), Action::Spin);
        assert_eq!(requester.stage, RequesterStage::Resetting);
        assert_eq!(requester.tag, TAG_IMAGE_A);
    }
}

#[test]
fn requester_writes_the_tag_it_was_given() {
    for tag in [0u32, 7, TAG_IMAGE_A, TAG_IMAGE_B, u32::MAX] {
        let mut requester = SwitchRequester::new(tag);
        assert_eq!(requester.step(), Action::WriteCell { tag });
    }
}

#[test]
fn requester_asks_for_the_reset_exactly_once() {
    let mut requester = SwitchRequester::new(TAG_IMAGE_B);
    let mut resets = 0;
    let mut writes = 0;
    for _ in 0..50 {
        match requester.step() {
            Action::RequestReset => resets += 1,
            Action::WriteCell { .. } => writes += 1,
            _ => {}
        }
    }
    assert_eq!(resets, 1);
    assert_eq!(writes, 1);
}
