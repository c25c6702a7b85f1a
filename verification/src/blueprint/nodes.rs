//! Blueprint nodes, the actions of deterministic nodes, and node results.

use vstd::prelude::*;

use crate::assertions::Assertion;

verus! {

/// A node of the blueprint graph: either deterministic (a fixed browser
/// action) or agentic (a language model drives the browser).
#[derive(Debug, Clone)]
pub enum BlueprintNode {
    Deterministic {
        id: String,
        name: String,
        action: DeterministicAction,
        timeout_seconds: Option<u64>,
    },
    Agentic {
        id: String,
        name: String,
        prompt: String,
        max_turns: Option<u32>,
        /// Restricts which browser tools the node may use.
        tools: Option<Vec<String>>,
        timeout_seconds: Option<u64>,
    },
}

impl BlueprintNode {
    /// The identifier of the node.
    pub open spec fn spec_id(&self) -> Seq<char> {
        match self {
            BlueprintNode::Deterministic { id, .. } => id@,
            BlueprintNode::Agentic { id, .. } => id@,
        }
    }

    /// The display name of the node.
    pub open spec fn spec_name(&self) -> Seq<char> {
        match self {
            BlueprintNode::Deterministic { name, .. } => name@,
            BlueprintNode::Agentic { name, .. } => name@,
        }
    }

    /// The identifier of the node.
    pub fn id(&self) -> (r: &str)
        ensures
            r@ == self.spec_id(),
    {
        match self {
            BlueprintNode::Deterministic { id, .. } => id.as_str(),
            BlueprintNode::Agentic { id, .. } => id.as_str(),
        }
    }

    /// The display name of the node.
    pub fn name(&self) -> (r: &str)
        ensures
            r@ == self.spec_name(),
    {
        match self {
            BlueprintNode::Deterministic { name, .. } => name.as_str(),
            BlueprintNode::Agentic { name, .. } => name.as_str(),
        }
    }

    /// Whether the node is deterministic.
    pub fn is_deterministic(&self) -> (b: bool)
        ensures
            b == (self is Deterministic),
    {
        match self {
            BlueprintNode::Deterministic { .. } => true,
            BlueprintNode::Agentic { .. } => false,
        }
    }

    /// Whether the node is agentic.
    pub fn is_agentic(&self) -> (b: bool)
        ensures
            b == (self is Agentic),
    {
        match self {
            BlueprintNode::Deterministic { .. } => false,
            BlueprintNode::Agentic { .. } => true,
        }
    }

    /// The kind of the node, as a result records it.
    pub fn node_type(&self) -> (t: NodeType)
        ensures
            (t is Deterministic) == (self is Deterministic),
    {
        match self {
            BlueprintNode::Deterministic { .. } => NodeType::Deterministic,
            BlueprintNode::Agentic { .. } => NodeType::Agentic,
        }
    }
}

/// Actions that run without a language model.
#[derive(Debug, Clone)]
pub enum DeterministicAction {
    /// Start the browser.
    LaunchBrowser,
    /// Navigate to a URL; `{{base_url}}` and `{{login_path}}` are filled in
    /// from the application configuration.
    Navigate { url_template: String },
    /// Log in with the configured credentials.
    Login,
    /// Fill form fields with values.
    FillForm { fields: Vec<FormField> },
    /// Click an element.
    Click { selector: String },
    /// Wait for a text to appear on the page.
    WaitFor { selector: String, timeout_ms: u64 },
    /// Take a named screenshot.
    Screenshot { name: String },
    /// Generate the report from the collected results.
    GenerateReport,
}

/// A form field and the value to put in it.
#[derive(Debug, Clone)]
pub struct FormField {
    pub selector: String,
    pub value: String,
}

/// How long a wait action waits, in milliseconds, when the blueprint does not say.
pub fn default_wait_timeout() -> (r: u64)
    ensures
        r == 5000,
{
    5000
}

/// The result of executing one node.
#[derive(Debug)]
pub struct NodeResult {
    pub node_id: String,
    pub node_name: String,
    pub node_type: NodeType,
    pub status: NodeStatus,
    pub duration_ms: u64,
    pub detail: Option<String>,
    pub screenshot_path: Option<String>,
    pub error: Option<String>,
    /// Every screenshot captured while the node ran.
    pub screenshots: Vec<String>,
    /// Assertion results recorded while the node ran.
    pub assertions: Vec<Assertion>,
}

/// The kind of a node.
#[derive(Debug, Clone, Copy, PartialEq, Eq, Structural)]
pub enum NodeType {
    Deterministic,
    Agentic,
}

/// The outcome of a node.
#[derive(Debug, Clone, Copy, PartialEq, Eq, Structural)]
pub enum NodeStatus {
    Pass,
    Fail,
    Skip,
    Error,
}

impl NodeStatus {
    /// Whether the outcome counts as a failure (`Fail` or `Error`).
    pub open spec fn is_failure(self) -> bool {
        self is Fail || self is Error
    }
}

/// A copy of an optional text.
pub fn clone_opt_string(o: &Option<String>) -> (r: Option<String>)
    ensures
        r == *o,
{
    match o {
        Some(s) => Some(s.clone()),
        None => None,
    }
}

/// A copy of a list of texts.
pub fn clone_strings(v: &Vec<String>) -> (r: Vec<String>)
    ensures
        r@ == v@,
{
    let mut r: Vec<String> = Vec::new();
    let mut i: usize = 0;
    while i < v.len()
        invariant
            i <= v@.len(),
            r@ == v@.take(i as int),
        decreases v@.len() - i,
    {
        r.push(v[i].clone());
        assert(v@.take(i + 1) =~= v@.take(i as int).push(v@[i as int]));
        i += 1;
    }
    assert(v@.take(v@.len() as int) =~= v@);
    r
}

/// A copy of a list of assertions.
pub fn clone_assertions(v: &Vec<Assertion>) -> (r: Vec<Assertion>)
    ensures
        r@ == v@,
{
    let mut r: Vec<Assertion> = Vec::new();
    let mut i: usize = 0;
    while i < v.len()
        invariant
            i <= v@.len(),
            r@ == v@.take(i as int),
        decreases v@.len() - i,
    {
        r.push(v[i].clone());
        assert(v@.take(i + 1) =~= v@.take(i as int).push(v@[i as int]));
        i += 1;
    }
    assert(v@.take(v@.len() as int) =~= v@);
    r
}

/// Two results that hold the same values, field by field (the lists by
/// their contents).
pub open spec fn same_result(a: NodeResult, b: NodeResult) -> bool {
    &&& a.node_id == b.node_id
    &&& a.node_name == b.node_name
    &&& a.node_type == b.node_type
    &&& a.status == b.status
    &&& a.duration_ms == b.duration_ms
    &&& a.detail == b.detail
    &&& a.screenshot_path == b.screenshot_path
    &&& a.error == b.error
    &&& a.screenshots@ == b.screenshots@
    &&& a.assertions@ == b.assertions@
}

impl Clone for NodeResult {
    fn clone(&self) -> (r: Self)
        ensures
            same_result(r, *self),
    {
        NodeResult {
            node_id: self.node_id.clone(),
            node_name: self.node_name.clone(),
            node_type: self.node_type,
            status: self.status,
            duration_ms: self.duration_ms,
            detail: clone_opt_string(&self.detail),
            screenshot_path: clone_opt_string(&self.screenshot_path),
            error: clone_opt_string(&self.error),
            screenshots: clone_strings(&self.screenshots),
            assertions: clone_assertions(&self.assertions),
        }
    }
}

} // verus!
