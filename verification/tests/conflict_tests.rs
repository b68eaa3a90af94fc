use subversion::conflict::{
    ConflictAction, ConflictChoice, ConflictKind, ConflictOptionId, ConflictReason, ConflictResult,
};

#[test]
fn test_conflict_choice_conversion() {
    assert_eq!(
        ConflictChoice::Postpone.to_raw(),
        0 // svn_wc_conflict_choose_postpone
    );
    assert_eq!(
        ConflictChoice::TheirsFull.to_raw(),
        2 // svn_wc_conflict_choose_theirs_full
    );
}

#[test]
fn conflict_choice_raw_values() {
    assert_eq!(ConflictChoice::Undefined.to_raw(), -1);
    assert_eq!(ConflictChoice::Base.to_raw(), 1);
    assert_eq!(ConflictChoice::MineFull.to_raw(), 3);
    assert_eq!(ConflictChoice::TheirsConflict.to_raw(), 4);
    assert_eq!(ConflictChoice::MineConflict.to_raw(), 5);
    assert_eq!(ConflictChoice::Merged.to_raw(), 6);
}

#[test]
fn conflict_option_ids() {
    assert_eq!(ConflictChoice::TheirsFull.to_text_option_id(), ConflictOptionId::IncomingText);
    assert_eq!(ConflictChoice::MineConflict.to_text_option_id(), ConflictOptionId::WorkingTextWhereConflicted);
    assert_eq!(ConflictChoice::Undefined.to_text_option_id(), ConflictOptionId::Undefined);
    assert_eq!(ConflictChoice::Base.to_tree_option_id(), ConflictOptionId::AcceptCurrentWcState);
    assert_eq!(ConflictChoice::TheirsFull.to_tree_option_id(), ConflictOptionId::IncomingDeleteAccept);
    assert_eq!(ConflictChoice::MineFull.to_tree_option_id(), ConflictOptionId::IncomingDeleteIgnore);
    assert_eq!(ConflictChoice::Merged.to_tree_option_id(), ConflictOptionId::Postpone);
}

#[test]
fn conflict_kinds_from_raw_values() {
    assert_eq!(ConflictKind::from_raw(0), ConflictKind::Text);
    assert_eq!(ConflictKind::from_raw(1), ConflictKind::Property);
    assert_eq!(ConflictKind::from_raw(2), ConflictKind::Tree);
    assert_eq!(ConflictAction::from_raw(0), ConflictAction::Edit);
    assert_eq!(ConflictAction::from_raw(3), ConflictAction::Replace);
    assert_eq!(ConflictReason::from_raw(0), ConflictReason::Edited);
    assert_eq!(ConflictReason::from_raw(4), ConflictReason::Unversioned);
    assert_eq!(ConflictReason::from_raw(8), ConflictReason::MovedHere);
}

#[test]
fn conflict_result_default_postpones() {
    let r = ConflictResult::default();
    assert_eq!(r.choice, ConflictChoice::Postpone);
    assert!(r.merged_file.is_none());
    assert!(!r.save_merged);
}
