//! Transitions between blueprint nodes and the conditions under which they fire.

use vstd::prelude::*;

use super::nodes::NodeStatus;

verus! {

/// A transition from one node to another.
#[derive(Debug, Clone)]
pub struct Transition {
    pub from: String,
    pub to: String,
    pub condition: TransitionCondition,
}

/// The condition under which a transition fires.
#[derive(Debug, Clone)]
pub enum TransitionCondition {
    /// Fires when the node passed.
    OnSuccess,
    /// Fires when the node failed or errored.
    OnFailure,
    /// Fires whatever the outcome.
    Always,
    /// A custom expression; expressions are not evaluated, so it never fires.
    OnCondition { expression: String },
}

impl TransitionCondition {
    /// Whether the condition holds of a node outcome.
    pub open spec fn spec_matches(&self, status: NodeStatus) -> bool {
        match self {
            TransitionCondition::OnSuccess => status is Pass,
            TransitionCondition::OnFailure => status is Fail || status is Error,
            TransitionCondition::Always => true,
            TransitionCondition::OnCondition { .. } => false,
        }
    }

    /// Whether the transition fires for a node with this outcome.
    pub fn matches(&self, status: &NodeStatus) -> (b: bool)
        ensures
            b == self.spec_matches(*status),
    {
        match self {
            TransitionCondition::OnSuccess => *status == NodeStatus::Pass,
            TransitionCondition::OnFailure => {
                *status == NodeStatus::Fail || *status == NodeStatus::Error
            },
            TransitionCondition::Always => true,
            TransitionCondition::OnCondition { .. } => false,
        }
    }
}

} // verus!
