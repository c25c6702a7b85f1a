//! Blueprints: directed graphs of deterministic and agentic test steps.

pub mod engine;
pub mod graph;
pub mod nodes;
pub mod transitions;

use vstd::prelude::*;

use self::nodes::BlueprintNode;
use self::transitions::Transition;

verus! {

/// A directed graph of deterministic and agentic nodes that tests a web
/// application; the first node is where execution starts.
#[derive(Debug, Clone)]
pub struct Blueprint {
    pub version: String,
    pub name: String,
    pub description: String,
    pub settings: BlueprintSettings,
    pub nodes: Vec<BlueprintNode>,
    pub transitions: Vec<Transition>,
}

/// Execution settings of a blueprint.
#[derive(Debug, Clone)]
pub struct BlueprintSettings {
    pub max_retries: u32,
    pub timeout_seconds: u64,
    pub screenshot_on_every_step: bool,
}

/// Retries of a failing node when the blueprint does not say.
pub fn default_max_retries() -> (r: u32)
    ensures
        r == 2,
{
    2
}

/// Timeout of a blueprint, in seconds, when the blueprint does not say.
pub fn default_timeout() -> (r: u64)
    ensures
        r == 120,
{
    120
}

/// The value of a flag that is on unless the blueprint says otherwise.
pub fn default_true() -> (r: bool)
    ensures
        r,
{
    true
}

impl Default for BlueprintSettings {
    fn default() -> (r: Self)
        ensures
            r.max_retries == 2,
            r.timeout_seconds == 120,
            r.screenshot_on_every_step,
    {
        BlueprintSettings {
            max_retries: default_max_retries(),
            timeout_seconds: default_timeout(),
            screenshot_on_every_step: default_true(),
        }
    }
}

impl Blueprint {
    /// The start node: the first node listed.
    pub fn start_node(&self) -> (r: Option<&BlueprintNode>)
        ensures
            self.nodes@.len() == 0 ==> r is None,
            self.nodes@.len() > 0 ==> r == Some(&self.nodes@[0]),
    {
        self.nodes.first()
    }
}

} // verus!
