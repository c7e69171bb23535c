use rust_agent::memory::persistence::{AtomicWrite, WriteAction, WriteStage};

#[test]
fn a_write_asks_for_write_flush_rename_in_that_order() {
    let mut write = AtomicWrite::new("document".to_string());
    assert_eq!(write.contents(), "document");
    assert_eq!(write.stage(), WriteStage::Start);
    assert_eq!(write.next_action(), WriteAction::WriteTemporary);
    write.advance(true);
    assert_eq!(write.next_action(), WriteAction::FlushTemporary);
    assert!(!write.is_done());
    write.advance(true);
    assert_eq!(write.next_action(), WriteAction::RenameOntoTarget);
    assert!(!write.is_done());
    write.advance(true);
    assert_eq!(write.next_action(), WriteAction::Finished);
    assert!(write.is_done());
    assert!(!write.has_failed());
    write.advance(false);
    assert!(write.is_done());
    assert_eq!(write.contents(), "document");
}

#[test]
fn a_failed_step_ends_the_write_before_the_rename() {
    for good_steps in 0..3 {
        let mut write = AtomicWrite::new("document".to_string());
        for _ in 0..good_steps {
            write.advance(true);
        }
        write.advance(false);
        assert!(write.has_failed());
        assert_eq!(write.stage(), WriteStage::Failed);
        assert_eq!(write.next_action(), WriteAction::GiveUp);
        write.advance(true);
        assert_eq!(write.next_action(), WriteAction::GiveUp);
        assert!(!write.is_done());
    }
}
