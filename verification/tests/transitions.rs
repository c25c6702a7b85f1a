use goose_webtest::blueprint::nodes::NodeStatus;
use goose_webtest::blueprint::transitions::TransitionCondition;

#[test]
fn test_transition_matching() {
    assert!(TransitionCondition::OnSuccess.matches(&NodeStatus::Pass));
    assert!(!TransitionCondition::OnSuccess.matches(&NodeStatus::Fail));
    assert!(TransitionCondition::OnFailure.matches(&NodeStatus::Fail));
    assert!(TransitionCondition::OnFailure.matches(&NodeStatus::Error));
    assert!(TransitionCondition::Always.matches(&NodeStatus::Pass));
    assert!(TransitionCondition::Always.matches(&NodeStatus::Fail));
}

#[test]
fn transition_conditions_on_skip_and_error() {
    assert!(!TransitionCondition::OnSuccess.matches(&NodeStatus::Skip));
    assert!(!TransitionCondition::OnSuccess.matches(&NodeStatus::Error));
    assert!(!TransitionCondition::OnFailure.matches(&NodeStatus::Pass));
    assert!(!TransitionCondition::OnFailure.matches(&NodeStatus::Skip));
    assert!(TransitionCondition::Always.matches(&NodeStatus::Skip));
    assert!(TransitionCondition::Always.matches(&NodeStatus::Error));
}
