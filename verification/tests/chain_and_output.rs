use rmap::binding::{binding_pick, BindingSource};
use rmap::look_chain::{
    autofix_action, chain_with_node_added, chain_with_node_moved, chain_with_node_removed,
    node_status, AutofixAction, NodeStatus,
};
use rmap::output::{OutputState, TestPattern};
use rmap::zones::{can_remove_mask_vertex, mask_insert_position, polygon_after_vertex_click};

#[test]
fn output_starts_without_test_pattern_and_t_cycles() {
    let mut s = OutputState::default();
    assert!(s.test_pattern.is_none());
    assert_eq!(s.test_pattern, TestPattern::default());
    // A cycle of "none" plus three patterns.
    s.cycle_test_pattern(4);
    assert_eq!(s.test_pattern.position, 1);
    assert!(!s.test_pattern.is_none());
    s.cycle_test_pattern(4);
    s.cycle_test_pattern(4);
    assert_eq!(s.test_pattern.position, 3);
    s.cycle_test_pattern(4);
    assert!(s.test_pattern.is_none());
    assert!(!s.blackout && !s.freeze && s.show_editor_overlay);
    assert_eq!(TestPattern::none().next(1), TestPattern::none());
}

#[test]
fn binding_picker_commits_only_a_different_source() {
    assert_eq!(binding_pick(BindingSource::Sine, BindingSource::Sine), None);
    assert_eq!(binding_pick(BindingSource::Sine, BindingSource::Osc), Some(BindingSource::Osc));
}

#[test]
fn chain_edits() {
    let chain = vec!["color", "blur", "tint", "feedback"];
    assert_eq!(chain_with_node_added(chain.clone(), "xform"), vec!["color", "blur", "tint", "feedback", "xform"]);
    assert_eq!(chain_with_node_removed(chain.clone(), 1), vec!["color", "tint", "feedback"]);
    let moved = chain_with_node_moved(chain.clone(), 0, 2);
    assert_eq!(moved, vec!["blur", "tint", "color", "feedback"]);
    assert_eq!(chain_with_node_moved(moved, 2, 0), chain);
    assert_eq!(chain_with_node_moved(chain.clone(), 3, 1), vec!["color", "feedback", "blur", "tint"]);
}

#[test]
fn node_status_dot() {
    assert_eq!(node_status(false, true), NodeStatus::Bypassed);
    assert_eq!(node_status(true, true), NodeStatus::NoOp);
    assert_eq!(node_status(true, false), NodeStatus::Active);
}

#[test]
fn autofix_actions() {
    assert_eq!(autofix_action("Needs a mask polygon"), AutofixAction::FullQuadMask);
    assert_eq!(autofix_action("Amplitude at 0"), AutofixAction::NudgeHeadlineParam);
    assert_eq!(autofix_action("All params at identity"), AutofixAction::ExposureOneStop);
    assert_eq!(autofix_action("Needs a zone role"), AutofixAction::ZoneRoleDeferred);
    assert_eq!(autofix_action("Overlay file missing"), AutofixAction::NoAction);
    assert_eq!(autofix_action(""), AutofixAction::NoAction);
}

#[test]
fn mask_vertex_edits() {
    assert!(!can_remove_mask_vertex(3));
    assert!(can_remove_mask_vertex(4));
    assert_eq!(polygon_after_vertex_click(vec![1, 2, 3, 4], 2), vec![1, 2, 4]);
    assert_eq!(polygon_after_vertex_click(vec![1, 2, 3], 0), vec![1, 2, 3]);
    assert_eq!(mask_insert_position(1, 4), 2);
    assert_eq!(mask_insert_position(3, 4), 4);
    assert_eq!(mask_insert_position(7, 4), 4);
}
