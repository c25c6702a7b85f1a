//! The blueprint engine: the graph of a blueprint and the decisions of a run
//! over it. Executing a node (driving a browser or a language model) is done by
//! the caller, which asks the engine which node to run and hands back each
//! node's outcome.

use vstd::prelude::*;

use petgraph::graph::Graph;
use petgraph::Directed;

use super::graph::{
    graph_add_edge, graph_add_node, graph_edges, graph_new, graph_node_count, graph_node_weight,
    graph_nodes, graph_out_edges, lemma_outgoing_bounded, outgoing,
};
use super::nodes::{BlueprintNode, NodeResult, NodeStatus, NodeType};
use crate::assertions::Assertion;
use crate::config::test_spec::prompt_text;
use crate::text::{extend_str, lemma_contains_extend, lemma_contains_middle, matches_at, spec_contains, string_from_chars};
use crate::report::ReportCollector;
use super::transitions::Transition;
use super::Blueprint;
use crate::config::app_config::AppConfig;
use crate::config::test_spec::TestSpec;

verus! {

/// Output of a completed agentic node, passed as context to later agentic nodes.
#[derive(Debug, Clone)]
pub struct NodeContextEntry {
    pub node_id: String,
    pub node_name: String,
    pub output: String,
}

/// Why an engine could not be built or started.
#[derive(Debug, Clone)]
pub enum EngineError {
    /// A transition names a node that the blueprint does not have.
    UnknownNode(String),
    /// The blueprint has no nodes.
    NoNodes,
}

/// The text of an engine error.
pub open spec fn engine_error_text(e: EngineError) -> Seq<char> {
    match e {
        EngineError::UnknownNode(id) => "Unknown node in transition: "@ + id@,
        EngineError::NoNodes => "Blueprint has no nodes"@,
    }
}

impl EngineError {
    /// The message of the error.
    pub fn message(&self) -> (r: String)
        ensures
            r@ == engine_error_text(*self),
    {
        match self {
            EngineError::UnknownNode(id) => {
                let mut m: Vec<char> = Vec::new();
                crate::text::extend_str(&mut m, "Unknown node in transition: ");
                crate::text::extend_str(&mut m, id.as_str());
                crate::text::string_from_chars(m.as_slice())
            },
            EngineError::NoNodes => String::from_str("Blueprint has no nodes"),
        }
    }
}

/// Executes a directed graph of deterministic and agentic nodes.
pub struct BlueprintEngine {
    blueprint: Blueprint,
    graph: Graph<usize, usize, Directed, u32>,
    app_config: AppConfig,
    test_spec: Option<TestSpec>,
    context_history: Vec<NodeContextEntry>,
    report_dir: String,
    headed: bool,
}

/// The position of the last node with identifier `id` (later nodes with the
/// same identifier replace earlier ones in the identifier index).
pub open spec fn last_index(nodes: Seq<BlueprintNode>, id: Seq<char>) -> Option<int>
    decreases nodes.len(),
{
    if nodes.len() == 0 {
        None
    } else if nodes.last().spec_id() == id {
        Some(nodes.len() - 1)
    } else {
        last_index(nodes.drop_last(), id)
    }
}

/// The position of the first node with identifier `id`.
pub open spec fn first_index(nodes: Seq<BlueprintNode>, id: Seq<char>) -> Option<int>
    decreases nodes.len(),
{
    if nodes.len() == 0 {
        None
    } else {
        match first_index(nodes.drop_last(), id) {
            Some(i) => Some(i),
            None => if nodes.last().spec_id() == id {
                Some(nodes.len() - 1)
            } else {
                None
            },
        }
    }
}

/// The name of the first endpoint, among the transitions in order, that names
/// no node (the source of a transition is checked before its target).
pub open spec fn unknown_endpoint(nodes: Seq<BlueprintNode>, ts: Seq<Transition>) -> Option<
    Seq<char>,
>
    decreases ts.len(),
{
    if ts.len() == 0 {
        None
    } else {
        match unknown_endpoint(nodes, ts.drop_last()) {
            Some(n) => Some(n),
            None => if last_index(nodes, ts.last().from@) is None {
                Some(ts.last().from@)
            } else if last_index(nodes, ts.last().to@) is None {
                Some(ts.last().to@)
            } else {
                None
            },
        }
    }
}

/// The graph edges of the transitions: transition `k` becomes an edge from
/// the node its source names to the node its target names, with weight `k`.
pub open spec fn transition_edges(nodes: Seq<BlueprintNode>, ts: Seq<Transition>) -> Seq<
    (usize, usize, usize),
> {
    Seq::new(
        ts.len(),
        |k: int|
            (
                last_index(nodes, ts[k].from@).unwrap() as usize,
                last_index(nodes, ts[k].to@).unwrap() as usize,
                k as usize,
            ),
    )
}

/// The node positions `0..n`, as the graph's node weights.
pub open spec fn positions(n: nat) -> Seq<usize> {
    Seq::new(n, |i: int| i as usize)
}

/// The target of the first outgoing edge, in walking order, whose transition
/// fires for `status`.
pub open spec fn first_firing(out: Seq<(usize, usize)>, ts: Seq<Transition>, status: NodeStatus) -> Option<usize>
    decreases out.len(),
{
    if out.len() == 0 {
        None
    } else if ts[out[0].1 as int].condition.spec_matches(status) {
        Some(out[0].0)
    } else {
        first_firing(out.drop_first(), ts, status)
    }
}

proof fn lemma_last_index_bounds(nodes: Seq<BlueprintNode>, id: Seq<char>)
    ensures
        last_index(nodes, id) matches Some(i) ==> 0 <= i < nodes.len() && nodes[i].spec_id() == id,
        last_index(nodes, id) matches Some(i) ==> forall|j: int|
            i < j < nodes.len() ==> nodes[j].spec_id() != id,
        last_index(nodes, id) is None ==> forall|j: int|
            0 <= j < nodes.len() ==> nodes[j].spec_id() != id,
    decreases nodes.len(),
{
    if nodes.len() > 0 {
        lemma_last_index_bounds(nodes.drop_last(), id);
        assert(forall|j: int| 0 <= j < nodes.len() - 1 ==> nodes.drop_last()[j] == nodes[j]);
    }
}

proof fn lemma_first_index_bounds(nodes: Seq<BlueprintNode>, id: Seq<char>)
    ensures
        first_index(nodes, id) matches Some(i) ==> 0 <= i < nodes.len() && nodes[i].spec_id()
            == id,
        first_index(nodes, id) matches Some(i) ==> forall|j: int|
            0 <= j < i ==> nodes[j].spec_id() != id,
        first_index(nodes, id) is None ==> forall|j: int|
            0 <= j < nodes.len() ==> nodes[j].spec_id() != id,
    decreases nodes.len(),
{
    if nodes.len() > 0 {
        lemma_first_index_bounds(nodes.drop_last(), id);
        assert(forall|j: int| 0 <= j < nodes.len() - 1 ==> nodes.drop_last()[j] == nodes[j]);
    }
}


/// The position of the last node with identifier `id`.
fn lookup_last(nodes: &Vec<BlueprintNode>, id: &str) -> (r: Option<usize>)
    ensures
        r matches Some(i) ==> last_index(nodes@, id@) == Some(i as int),
        r is None ==> last_index(nodes@, id@) is None,
{
    let mut i = nodes.len();
    assert(nodes@.take(nodes@.len() as int) =~= nodes@);
    while i > 0
        invariant
            i <= nodes@.len(),
            last_index(nodes@, id@) == last_index(nodes@.take(i as int), id@),
        decreases i,
    {
        let ghost pre = nodes@.take(i as int);
        assert(pre.drop_last() =~= nodes@.take(i - 1));
        if crate::text::str_eq(nodes[i - 1].id(), id) {
            return Some(i - 1);
        }
        i -= 1;
    }
    None
}

/// The position of the first node with identifier `id`.
fn lookup_first(nodes: &Vec<BlueprintNode>, id: &str) -> (r: Option<usize>)
    ensures
        r matches Some(i) ==> first_index(nodes@, id@) == Some(i as int),
        r is None ==> first_index(nodes@, id@) is None,
{
    let mut i: usize = 0;
    while i < nodes.len()
        invariant
            i <= nodes@.len(),
            first_index(nodes@.take(i as int), id@) is None,
        decreases nodes@.len() - i,
    {
        let ghost pre = nodes@.take(i + 1);
        assert(pre.drop_last() =~= nodes@.take(i as int));
        if crate::text::str_eq(nodes[i].id(), id) {
            proof {
                lemma_first_index_prefix(nodes@, id@, i + 1);
            }
            return Some(i);
        }
        i += 1;
    }
    assert(nodes@.take(nodes@.len() as int) =~= nodes@);
    None
}

proof fn lemma_first_index_prefix(nodes: Seq<BlueprintNode>, id: Seq<char>, n: int)
    requires
        0 <= n <= nodes.len(),
        first_index(nodes.take(n), id) is Some,
    ensures
        first_index(nodes, id) == first_index(nodes.take(n), id),
    decreases nodes.len(),
{
    if n < nodes.len() {
        assert(nodes.drop_last().take(n) =~= nodes.take(n));
        lemma_first_index_prefix(nodes.drop_last(), id, n);
    } else {
        assert(nodes.take(n) =~= nodes);
    }
}

impl BlueprintEngine {
    /// The blueprint the engine runs.
    pub closed spec fn spec_blueprint(&self) -> Blueprint {
        self.blueprint
    }

    /// The application configuration.
    pub closed spec fn spec_app_config(&self) -> AppConfig {
        self.app_config
    }

    /// The test specification injected into agentic prompts, if any.
    pub closed spec fn spec_test_spec(&self) -> Option<TestSpec> {
        self.test_spec
    }

    /// The outputs of completed agentic nodes, in order.
    pub closed spec fn spec_context(&self) -> Seq<NodeContextEntry> {
        self.context_history@
    }

    /// Where reports and screenshots go.
    pub closed spec fn spec_report_dir(&self) -> Seq<char> {
        self.report_dir@
    }

    /// Whether the browser is to be shown.
    pub closed spec fn spec_headed(&self) -> bool {
        self.headed
    }

    /// The outgoing edges of node `i`, in walking order, as (target, transition).
    pub closed spec fn spec_outgoing(&self, i: usize) -> Seq<(usize, usize)> {
        outgoing(graph_edges(self.graph), i)
    }

    /// The graph holds one node per blueprint node, in order, and one edge per
    /// transition, from the node its source names to the node its target names.
    pub closed spec fn wf(&self) -> bool {
        let nodes = self.blueprint.nodes@;
        let ts = self.blueprint.transitions@;
        &&& nodes.len() < u32::MAX
        &&& ts.len() < u32::MAX
        &&& unknown_endpoint(nodes, ts) is None
        &&& graph_nodes(self.graph) == positions(nodes.len())
        &&& graph_edges(self.graph) == transition_edges(nodes, ts)
    }

    /// An engine for a blueprint, with the browser hidden.
    pub fn new(blueprint: Blueprint, app_config: AppConfig) -> (r: Result<BlueprintEngine, EngineError>)
        requires
            blueprint.nodes@.len() < u32::MAX,
            blueprint.transitions@.len() < u32::MAX,
        ensures
            r is Ok <==> unknown_endpoint(blueprint.nodes@, blueprint.transitions@) is None,
            r matches Err(e) ==> e matches EngineError::UnknownNode(n) && unknown_endpoint(
                blueprint.nodes@,
                blueprint.transitions@,
            ) == Some(n@),
            r matches Ok(e) ==> {
                &&& e.wf()
                &&& e.spec_blueprint() == blueprint
                &&& e.spec_app_config() == app_config
                &&& e.spec_test_spec() is None
                &&& e.spec_context().len() == 0
                &&& e.spec_report_dir() == "reports"@
                &&& !e.spec_headed()
            },
    {
        Self::with_options(blueprint, app_config, false)
    }

    /// An engine for a blueprint: one graph node per blueprint node and one
    /// edge per transition. Fails on the first transition endpoint (source
    /// before target) that names no node.
    pub fn with_options(blueprint: Blueprint, app_config: AppConfig, headed: bool) -> (r: Result<
        BlueprintEngine,
        EngineError,
    >)
        requires
            blueprint.nodes@.len() < u32::MAX,
            blueprint.transitions@.len() < u32::MAX,
        ensures
            r is Ok <==> unknown_endpoint(blueprint.nodes@, blueprint.transitions@) is None,
            r matches Err(e) ==> e matches EngineError::UnknownNode(n) && unknown_endpoint(
                blueprint.nodes@,
                blueprint.transitions@,
            ) == Some(n@),
            r matches Ok(e) ==> {
                &&& e.wf()
                &&& e.spec_blueprint() == blueprint
                &&& e.spec_app_config() == app_config
                &&& e.spec_test_spec() is None
                &&& e.spec_context().len() == 0
                &&& e.spec_report_dir() == "reports"@
                &&& e.spec_headed() == headed
            },
    {
        let ghost nodes = blueprint.nodes@;
        let ghost ts = blueprint.transitions@;
        let mut graph = graph_new();
        let mut i: usize = 0;
        while i < blueprint.nodes.len()
            invariant
                i <= nodes.len(),
                nodes == blueprint.nodes@,
                nodes.len() < u32::MAX,
                graph_nodes(graph) == positions(i as nat),
                graph_edges(graph) == Seq::<(usize, usize, usize)>::empty(),
            decreases nodes.len() - i,
        {
            graph_add_node(&mut graph, i);
            assert(graph_nodes(graph) =~= positions((i + 1) as nat));
            i += 1;
        }
        let mut k: usize = 0;
        assert(ts.take(0) =~= Seq::<Transition>::empty());
        while k < blueprint.transitions.len()
            invariant
                k <= ts.len(),
                nodes == blueprint.nodes@,
                ts == blueprint.transitions@,
                nodes.len() < u32::MAX,
                ts.len() < u32::MAX,
                unknown_endpoint(nodes, ts.take(k as int)) is None,
                graph_nodes(graph) == positions(nodes.len()),
                graph_edges(graph) == transition_edges(nodes, ts.take(k as int)),
            decreases ts.len() - k,
        {
            let t = &blueprint.transitions[k];
            let ghost pre = ts.take(k as int);
            assert(ts.take(k + 1).drop_last() =~= pre);
            assert(ts.take(k + 1).last() == ts[k as int]);
            let from = lookup_last(&blueprint.nodes, t.from.as_str());
            let from = match from {
                Some(f) => f,
                None => {
                    proof {
                        lemma_unknown_endpoint_prefix(nodes, ts, k + 1);
                    }
                    return Err(EngineError::UnknownNode(t.from.clone()));
                },
            };
            let to = lookup_last(&blueprint.nodes, t.to.as_str());
            let to = match to {
                Some(x) => x,
                None => {
                    proof {
                        lemma_unknown_endpoint_prefix(nodes, ts, k + 1);
                    }
                    return Err(EngineError::UnknownNode(t.to.clone()));
                },
            };
            proof {
                lemma_last_index_bounds(nodes, t.from@);
                lemma_last_index_bounds(nodes, t.to@);
            }
            graph_add_edge(&mut graph, from, to, k);
            assert(graph_edges(graph) =~= transition_edges(nodes, ts.take(k + 1)));
            k += 1;
        }
        assert(ts.take(ts.len() as int) =~= ts);
        Ok(BlueprintEngine {
            blueprint,
            graph,
            app_config,
            test_spec: None,
            context_history: Vec::new(),
            report_dir: String::from_str("reports"),
            headed,
        })
    }

    /// The position of the last node with identifier `id`: the graph node
    /// that transitions naming `id` attach to.
    pub fn node_index(&self, id: &str) -> (r: Option<usize>)
        ensures
            r matches Some(i) ==> last_index(self.spec_blueprint().nodes@, id@) == Some(i as int),
            r is None ==> last_index(self.spec_blueprint().nodes@, id@) is None,
    {
        lookup_last(&self.blueprint.nodes, id)
    }

    /// The first node of the blueprint with identifier `id`.
    pub fn find_node(&self, id: &str) -> (r: Option<&BlueprintNode>)
        ensures
            first_index(self.spec_blueprint().nodes@, id@) matches Some(i) ==> r == Some(
                &self.spec_blueprint().nodes@[i],
            ),
            first_index(self.spec_blueprint().nodes@, id@) is None ==> r is None,
    {
        match lookup_first(&self.blueprint.nodes, id) {
            Some(i) => {
                proof {
                    lemma_first_index_bounds(self.blueprint.nodes@, id@);
                }
                Some(&self.blueprint.nodes[i])
            },
            None => None,
        }
    }

    /// The number of nodes of the graph.
    pub fn node_count(&self) -> (n: usize)
        requires
            self.wf(),
        ensures
            n == self.spec_blueprint().nodes@.len(),
    {
        graph_node_count(&self.graph)
    }

    /// The blueprint the engine runs.
    pub fn blueprint(&self) -> (r: &Blueprint)
        ensures
            *r == self.spec_blueprint(),
    {
        &self.blueprint
    }

    /// The application configuration.
    pub fn app_config(&self) -> (r: &AppConfig)
        ensures
            *r == self.spec_app_config(),
    {
        &self.app_config
    }

    /// The number of agentic outputs kept as context.
    pub fn context_history_len(&self) -> (n: usize)
        ensures
            n == self.spec_context().len(),
    {
        self.context_history.len()
    }

    /// Where reports and screenshots go.
    pub fn report_dir(&self) -> (r: &str)
        ensures
            r@ == self.spec_report_dir(),
    {
        self.report_dir.as_str()
    }

    /// Whether the browser is to be shown.
    pub fn headed(&self) -> (b: bool)
        ensures
            b == self.spec_headed(),
    {
        self.headed
    }

    /// Sets where reports and screenshots go.
    pub fn set_report_dir(&mut self, dir: String)
        ensures
            final(self).spec_report_dir() == dir@,
            final(self).spec_blueprint() == old(self).spec_blueprint(),
            final(self).spec_app_config() == old(self).spec_app_config(),
            final(self).spec_test_spec() == old(self).spec_test_spec(),
            final(self).spec_context() == old(self).spec_context(),
            final(self).spec_headed() == old(self).spec_headed(),
            old(self).wf() ==> final(self).wf(),
            forall|i: usize| final(self).spec_outgoing(i) == old(self).spec_outgoing(i),
    {
        self.report_dir = dir;
    }

    /// Sets the test specification injected into agentic prompts.
    pub fn set_test_spec(&mut self, spec: TestSpec)
        ensures
            final(self).spec_test_spec() == Some(spec),
            final(self).spec_report_dir() == old(self).spec_report_dir(),
            final(self).spec_blueprint() == old(self).spec_blueprint(),
            final(self).spec_app_config() == old(self).spec_app_config(),
            final(self).spec_context() == old(self).spec_context(),
            final(self).spec_headed() == old(self).spec_headed(),
            old(self).wf() ==> final(self).wf(),
            forall|i: usize| final(self).spec_outgoing(i) == old(self).spec_outgoing(i),
    {
        self.test_spec = Some(spec);
    }

    /// The next node after node `current` ended with `status`: the target of
    /// the first of its outgoing transitions, in the graph's walking order
    /// (most recently added first), that fires for the status.
    pub fn resolve_next(&self, current: usize, status: &NodeStatus) -> (r: Option<usize>)
        requires
            self.wf(),
            current < self.spec_blueprint().nodes@.len(),
        ensures
            r == first_firing(self.spec_outgoing(current), self.spec_blueprint().transitions@, *status),
            r matches Some(n) ==> n < self.spec_blueprint().nodes@.len(),
    {
        let ghost ts = self.blueprint.transitions@;
        let ghost nodes = self.blueprint.nodes@;
        let out = graph_out_edges(&self.graph, current);
        proof {
            let es = graph_edges(self.graph);
            assert forall|i: int| 0 <= i < es.len() implies (#[trigger] es[i]).1 < nodes.len()
                && es[i].2 < ts.len() by {
                lemma_last_index_bounds(nodes, ts[i].to@);
                lemma_last_index_bounds(nodes, ts[i].from@);
                lemma_unknown_endpoint_none(nodes, ts, i);
            }
            lemma_outgoing_bounded(es, current, nodes.len(), ts.len());
        }
        let mut j: usize = 0;
        assert(out@.skip(0) =~= out@);
        while j < out.len()
            invariant
                j <= out@.len(),
                ts == self.blueprint.transitions@,
                nodes == self.blueprint.nodes@,
                out@ == outgoing(graph_edges(self.graph), current),
                forall|m: int| 0 <= m < out@.len() ==> (#[trigger] out@[m]).0 < nodes.len() && out@[m].1 < ts.len(),
                first_firing(out@, ts, *status) == first_firing(out@.skip(j as int), ts, *status),
            decreases out@.len() - j,
        {
            let (target, k) = out[j];
            assert(out@.skip(j as int)[0] == out@[j as int]);
            if self.blueprint.transitions[k].condition.matches(status) {
                return Some(target);
            }
            assert(out@.skip(j as int).drop_first() =~= out@.skip(j + 1));
            j += 1;
        }
        None
    }

    /// Where a run starts: the graph node of the first node's identifier.
    /// Fails when the blueprint has no nodes.
    pub fn start(&self) -> (r: Result<ExecutionState, EngineError>)
        requires
            self.wf(),
        ensures
            self.spec_blueprint().nodes@.len() == 0 ==> r matches Err(EngineError::NoNodes),
            self.spec_blueprint().nodes@.len() > 0 ==> r == Ok::<ExecutionState, EngineError>(
                ExecutionState {
                    current: last_index(
                        self.spec_blueprint().nodes@,
                        self.spec_blueprint().nodes@[0].spec_id(),
                    ).unwrap() as usize,
                    retries: 0,
                },
            ),
            r matches Ok(st) ==> st.current < self.spec_blueprint().nodes@.len(),
    {
        match self.blueprint.start_node() {
            None => Err(EngineError::NoNodes),
            Some(node) => {
                let idx = lookup_last(&self.blueprint.nodes, node.id());
                proof {
                    lemma_last_index_bounds(self.blueprint.nodes@, node.spec_id());
                }
                match idx {
                    Some(i) => Ok(ExecutionState { current: i, retries: 0 }),
                    None => Err(EngineError::NoNodes),
                }
            },
        }
    }

    /// The node to execute in state `st`: the first blueprint node whose
    /// identifier is that of the graph node `st.current`.
    pub fn current_node(&self, st: &ExecutionState) -> (r: &BlueprintNode)
        requires
            self.wf(),
            st.current < self.spec_blueprint().nodes@.len(),
        ensures
            first_index(
                self.spec_blueprint().nodes@,
                self.spec_blueprint().nodes@[st.current as int].spec_id(),
            ) matches Some(i) && *r == self.spec_blueprint().nodes@[i],
    {
        let w = graph_node_weight(&self.graph, st.current);
        let node = &self.blueprint.nodes[w];
        let found = lookup_first(&self.blueprint.nodes, node.id());
        proof {
            lemma_first_index_bounds(self.blueprint.nodes@, node.spec_id());
        }
        match found {
            Some(i) => &self.blueprint.nodes[i],
            None => node,
        }
    }

    /// The context prefix listing the outputs of earlier agentic nodes.
    pub fn build_context_prefix(&self) -> (r: String)
        ensures
            r@ == context_prefix(self.spec_context()),
    {
        let mut out: Vec<char> = Vec::new();
        self.push_context_prefix(&mut out);
        string_from_chars(out.as_slice())
    }

    fn push_context_prefix(&self, out: &mut Vec<char>)
        ensures
            final(out)@ == old(out)@ + context_prefix(self.spec_context()),
    {
        if self.context_history.len() == 0 {
            assert(old(out)@ + Seq::<char>::empty() =~= old(out)@);
            return;
        }
        let ghost es = self.context_history@;
        extend_str(out, "=== Context from previous steps ===\n");
        let ghost head = out@;
        let mut i: usize = 0;
        assert(es.take(0) =~= Seq::<NodeContextEntry>::empty());
        while i < self.context_history.len()
            invariant
                i <= es.len(),
                es == self.context_history@,
                out@ == head + context_entries(es.take(i as int)),
            decreases es.len() - i,
        {
            let e = &self.context_history[i];
            extend_str(out, "### ");
            extend_str(out, e.node_name.as_str());
            extend_str(out, " (node: ");
            extend_str(out, e.node_id.as_str());
            extend_str(out, ")\n");
            extend_str(out, e.output.as_str());
            extend_str(out, "\n\n");
            assert(es.take(i + 1).drop_last() =~= es.take(i as int));
            i += 1;
        }
        assert(es.take(es.len() as int) =~= es);
        extend_str(out, "=== End previous context ===\n\n");
    }

    /// The header naming the application under test.
    pub fn build_app_context(&self) -> (r: String)
        ensures
            r@ == app_context(self.spec_app_config()),
    {
        let mut out: Vec<char> = Vec::new();
        self.push_app_context(&mut out);
        string_from_chars(out.as_slice())
    }

    fn push_app_context(&self, out: &mut Vec<char>)
        ensures
            final(out)@ == old(out)@ + app_context(self.spec_app_config()),
    {
        let c = &self.app_config;
        extend_str(out, "=== Application Under Test ===\n");
        extend_str(out, "Name: ");
        extend_str(out, c.target.name.as_str());
        extend_str(out, "\n");
        extend_str(out, "Base URL: ");
        extend_str(out, c.target.base_url.as_str());
        extend_str(out, "\n");
        let ghost before_auth = out@;
        if c.requires_auth() {
            extend_str(out, "Auth: Logged in (form-based authentication completed)\n");
        } else {
            assert(out@ + Seq::<char>::empty() =~= out@);
        }
        let ghost before_lang = out@;
        if c.target.language.as_str().unicode_len() > 0 {
            extend_str(out, "Language: ");
            extend_str(out, c.target.language.as_str());
            extend_str(out, "\n");
        } else {
            assert(out@ + Seq::<char>::empty() =~= out@);
        }
        extend_str(
            out,
            "IMPORTANT: You are already in the browser on the application. Use browser_snapshot to see the current page. Do NOT navigate to localhost or any other URL \u{2014} stay on this application.\n",
        );
        extend_str(out, "=== End Application Context ===\n\n");
    }

    /// The full prompt for an agentic node whose own prompt is `prompt`.
    pub fn agentic_prompt(&self, prompt: &str) -> (r: String)
        ensures
            r@ == full_prompt(
                self.spec_app_config(),
                self.spec_context(),
                self.spec_test_spec(),
                prompt@,
            ),
    {
        let mut out: Vec<char> = Vec::new();
        self.push_app_context(&mut out);
        self.push_context_prefix(&mut out);
        extend_str(&mut out, prompt);
        match &self.test_spec {
            Some(t) => {
                extend_str(&mut out, "\n\n--- Test Specification ---\n");
                let p = t.to_prompt();
                extend_str(&mut out, p.as_str());
            },
            None => {
                assert(out@ + Seq::<char>::empty() =~= out@);
            },
        }
        string_from_chars(out.as_slice())
    }

    /// The result of a node that ran for `duration_ms` milliseconds with the
    /// given outcome: passed with its output, or failed with its error. The
    /// output of a completed agentic node is kept as context for later prompts.
    pub fn finish_node(
        &mut self,
        node: &BlueprintNode,
        duration_ms: u64,
        outcome: Result<NodeOutput, String>,
    ) -> (r: NodeResult)
        ensures
            r.node_id@ == node.spec_id(),
            r.node_name@ == node.spec_name(),
            (r.node_type is Deterministic) == (node is Deterministic),
            r.duration_ms == duration_ms,
            r.screenshot_path is None,
            outcome matches Ok(o) ==> {
                &&& r.status == NodeStatus::Pass
                &&& r.detail == Some(o.detail)
                &&& r.error is None
                &&& r.screenshots == o.screenshots
                &&& r.assertions == o.assertions
            },
            outcome matches Err(e) ==> {
                &&& r.status == NodeStatus::Fail
                &&& r.detail is None
                &&& r.error == Some(e)
                &&& r.screenshots@.len() == 0
                &&& r.assertions@.len() == 0
            },
            (outcome is Ok && node is Agentic) ==> {
                &&& final(self).spec_context().len() == old(self).spec_context().len() + 1
                &&& final(self).spec_context().drop_last() == old(self).spec_context()
                &&& final(self).spec_context().last().node_id@ == node.spec_id()
                &&& final(self).spec_context().last().node_name@ == node.spec_name()
                &&& final(self).spec_context().last().output@ == outcome->Ok_0.detail@
            },
            !(outcome is Ok && node is Agentic) ==> final(self).spec_context() == old(
                self,
            ).spec_context(),
            final(self).spec_blueprint() == old(self).spec_blueprint(),
            final(self).spec_app_config() == old(self).spec_app_config(),
            final(self).spec_test_spec() == old(self).spec_test_spec(),
            final(self).spec_report_dir() == old(self).spec_report_dir(),
            final(self).spec_headed() == old(self).spec_headed(),
            old(self).wf() ==> final(self).wf(),
            forall|i: usize| final(self).spec_outgoing(i) == old(self).spec_outgoing(i),
    {
        let node_id = String::from_str(node.id());
        let node_name = String::from_str(node.name());
        let node_type = node.node_type();
        match outcome {
            Ok(o) => {
                if node.is_agentic() {
                    let ghost old_ctx = self.context_history@;
                    self.context_history.push(
                        NodeContextEntry {
                            node_id: String::from_str(node.id()),
                            node_name: String::from_str(node.name()),
                            output: o.detail.clone(),
                        },
                    );
                    assert(self.context_history@.drop_last() =~= old_ctx);
                }
                NodeResult {
                    node_id,
                    node_name,
                    node_type,
                    status: NodeStatus::Pass,
                    duration_ms,
                    detail: Some(o.detail),
                    screenshot_path: None,
                    error: None,
                    screenshots: o.screenshots,
                    assertions: o.assertions,
                }
            },
            Err(e) => NodeResult {
                node_id,
                node_name,
                node_type,
                status: NodeStatus::Fail,
                duration_ms,
                detail: None,
                screenshot_path: None,
                error: Some(e),
                screenshots: Vec::new(),
                assertions: Vec::new(),
            },
        }
    }

    /// Records the result of the node run in state `st` and decides what runs
    /// next: the same node again while it fails and retries are left, else the
    /// first firing transition's target with the retry count reset, or `None`
    /// when no transition fires and the run is over.
    pub fn advance(&self, st: ExecutionState, result: NodeResult, report: &mut ReportCollector) -> (r: Option<ExecutionState>)
        requires
            self.wf(),
            st.current < self.spec_blueprint().nodes@.len(),
            st.retries <= self.spec_blueprint().settings.max_retries,
        ensures
            final(report).steps@ == old(report).steps@.push(result),
            final(report).target_name == old(report).target_name,
            final(report).blueprint_name == old(report).blueprint_name,
            final(report).test_spec == old(report).test_spec,
            final(report).start_time == old(report).start_time,
            r == next_state(
                st,
                result.status,
                self.spec_blueprint().settings.max_retries,
                self.spec_outgoing(st.current),
                self.spec_blueprint().transitions@,
            ),
            r matches Some(n) ==> n.current < self.spec_blueprint().nodes@.len() && n.retries
                <= self.spec_blueprint().settings.max_retries,
    {
        let status = result.status;
        let failed = status == NodeStatus::Fail || status == NodeStatus::Error;
        let max_retries = self.blueprint.settings.max_retries;
        report.record_step(result);
        if failed && st.retries < max_retries {
            return Some(ExecutionState { current: st.current, retries: st.retries + 1 });
        }
        match self.resolve_next(st.current, &status) {
            Some(n) => Some(ExecutionState { current: n, retries: 0 }),
            None => None,
        }
    }
}

proof fn lemma_unknown_endpoint_none(nodes: Seq<BlueprintNode>, ts: Seq<Transition>, i: int)
    requires
        unknown_endpoint(nodes, ts) is None,
        0 <= i < ts.len(),
    ensures
        last_index(nodes, ts[i].from@) is Some,
        last_index(nodes, ts[i].to@) is Some,
    decreases ts.len(),
{
    if i < ts.len() - 1 {
        assert(ts.drop_last()[i] == ts[i]);
        lemma_unknown_endpoint_none(nodes, ts.drop_last(), i);
    }
}

/// What a node that ran to completion produced.
#[derive(Debug, Clone)]
pub struct NodeOutput {
    /// The text the node reported (for an agentic node, the model's final answer).
    pub detail: String,
    pub screenshots: Vec<String>,
    pub assertions: Vec<Assertion>,
}

/// The context section that lists earlier agentic outputs, one block each.
pub open spec fn context_entries(es: Seq<NodeContextEntry>) -> Seq<char>
    decreases es.len(),
{
    if es.len() == 0 {
        Seq::empty()
    } else {
        let e = es.last();
        context_entries(es.drop_last()) + "### "@ + e.node_name@ + " (node: "@ + e.node_id@
            + ")\n"@ + e.output@ + "\n\n"@
    }
}

/// The context prefix of an agentic prompt: empty without earlier outputs.
pub open spec fn context_prefix(es: Seq<NodeContextEntry>) -> Seq<char> {
    if es.len() == 0 {
        Seq::empty()
    } else {
        "=== Context from previous steps ===\n"@ + context_entries(es)
            + "=== End previous context ===\n\n"@
    }
}

/// The line that tells the agent to stay on the application.
pub open spec fn stay_line() -> Seq<char> {
    "IMPORTANT: You are already in the browser on the application. Use browser_snapshot to see the current page. Do NOT navigate to localhost or any other URL \u{2014} stay on this application.\n"@
}

/// The header that tells the agent which application it is testing.
pub open spec fn app_context(c: AppConfig) -> Seq<char> {
    "=== Application Under Test ===\n"@ + "Name: "@ + c.target.name@ + "\n"@ + "Base URL: "@
        + c.target.base_url@ + "\n"@ + (if c.spec_requires_auth() {
        "Auth: Logged in (form-based authentication completed)\n"@
    } else {
        Seq::empty()
    }) + (if c.target.language@.len() > 0 {
        "Language: "@ + c.target.language@ + "\n"@
    } else {
        Seq::empty()
    }) + stay_line() + "=== End Application Context ===\n\n"@
}

/// The full prompt of an agentic node: application header, earlier outputs,
/// the node's own prompt, then the test specification if one is set.
pub open spec fn full_prompt(
    c: AppConfig,
    es: Seq<NodeContextEntry>,
    spec: Option<TestSpec>,
    prompt: Seq<char>,
) -> Seq<char> {
    app_context(c) + context_prefix(es) + prompt + match spec {
        Some(t) => "\n\n--- Test Specification ---\n"@ + prompt_text(t.title@, t.descriptions()),
        None => Seq::empty(),
    }
}

proof fn lemma_entries_hold_outputs(es: Seq<NodeContextEntry>)
    ensures
        forall|k: int|
            0 <= k < es.len() ==> spec_contains(
                context_entries(es),
                "### "@ + (#[trigger] es[k]).node_name@ + " (node: "@ + es[k].node_id@ + ")\n"@ + es[k].output@,
            ),
    decreases es.len(),
{
    if es.len() > 0 {
        let d = es.drop_last();
        lemma_entries_hold_outputs(d);
        let e = es.last();
        let blk = "### "@ + e.node_name@ + " (node: "@ + e.node_id@ + ")\n"@ + e.output@;
        assert forall|k: int| 0 <= k < es.len() implies spec_contains(
            context_entries(es),
            "### "@ + (#[trigger] es[k]).node_name@ + " (node: "@ + es[k].node_id@ + ")\n"@ + es[k].output@,
        ) by {
            let t = "### "@ + es[k].node_name@ + " (node: "@ + es[k].node_id@ + ")\n"@ + es[k].output@;
            let tail = "### "@ + e.node_name@ + " (node: "@ + e.node_id@ + ")\n"@ + e.output@ + "\n\n"@;
            assert(context_entries(es) =~= context_entries(d) + tail);
            if k < es.len() - 1 {
                assert(d[k] == es[k]);
                lemma_contains_extend(context_entries(d), tail, t);
            } else {
                assert(tail =~= blk + "\n\n"@);
                lemma_contains_middle(Seq::<char>::empty(), blk, "\n\n"@);
                assert(Seq::<char>::empty() + blk + "\n\n"@ =~= tail);
                lemma_contains_extend(context_entries(d), tail, t);
            }
        }
    }
}

/// The prompt of an agentic node passes on the earlier agentic outputs: it
/// holds, right after the application header and right before the node's
/// own prompt, the context prefix of the recorded entries; and every
/// recorded entry appears in it with its node's name, identifier and output.
pub proof fn law_prompt_passes_context(
    c: AppConfig,
    es: Seq<NodeContextEntry>,
    spec: Option<TestSpec>,
    prompt: Seq<char>,
)
    ensures
        full_prompt(c, es, spec, prompt).subrange(
            app_context(c).len() as int,
            (app_context(c).len() + context_prefix(es).len()) as int,
        ) == context_prefix(es),
        matches_at(full_prompt(c, es, spec, prompt), prompt, (app_context(c).len() + context_prefix(es).len()) as int),
        forall|k: int|
            0 <= k < es.len() ==> spec_contains(
                full_prompt(c, es, spec, prompt),
                "### "@ + (#[trigger] es[k]).node_name@ + " (node: "@ + es[k].node_id@ + ")\n"@ + es[k].output@,
            ),
        forall|k: int| 0 <= k < es.len() ==> spec_contains(full_prompt(c, es, spec, prompt), (#[trigger] es[k]).output@),
{
    let a = app_context(c);
    let p = context_prefix(es);
    let rest = match spec {
        Some(t) => "\n\n--- Test Specification ---\n"@ + prompt_text(t.title@, t.descriptions()),
        None => Seq::<char>::empty(),
    };
    let full = full_prompt(c, es, spec, prompt);
    assert(full =~= a + p + prompt + rest);
    assert(full.subrange(a.len() as int, (a.len() + p.len()) as int) =~= p);
    assert(full.subrange((a.len() + p.len()) as int, (a.len() + p.len() + prompt.len()) as int) =~= prompt);
    if es.len() > 0 {
        lemma_entries_hold_outputs(es);
        let head = "=== Context from previous steps ===\n"@;
        let foot = "=== End previous context ===\n\n"@;
        assert(p =~= head + context_entries(es) + foot);
        assert forall|k: int| 0 <= k < es.len() implies spec_contains(
            full,
            "### "@ + (#[trigger] es[k]).node_name@ + " (node: "@ + es[k].node_id@ + ")\n"@ + es[k].output@,
        ) && spec_contains(full, es[k].output@) by {
            let t = "### "@ + es[k].node_name@ + " (node: "@ + es[k].node_id@ + ")\n"@ + es[k].output@;
            lemma_contains_extend(head, context_entries(es), t);
            lemma_contains_extend(head + context_entries(es), foot, t);
            lemma_contains_extend(a, p, t);
            lemma_contains_extend(a + p, prompt + rest, t);
            assert(a + p + (prompt + rest) =~= full);
            let pre = "### "@ + es[k].node_name@ + " (node: "@ + es[k].node_id@ + ")\n"@;
            let i = choose|i: int| matches_at(full, t, i);
            let o = es[k].output@;
            assert(t.len() == pre.len() + o.len());
            assert(full.subrange(i, i + t.len()) == t);
            assert(full.subrange(i + pre.len(), i + pre.len() + o.len()) =~= full.subrange(i, i + t.len()).subrange(
                pre.len() as int,
                (pre.len() + o.len()) as int,
            ));
            assert(full.subrange(i + pre.len(), i + pre.len() + es[k].output@.len()) =~= t.subrange(
                pre.len() as int,
                (pre.len() + es[k].output@.len()) as int,
            ));
            assert(t.subrange(pre.len() as int, (pre.len() + o.len()) as int) =~= o);
            assert(matches_at(full, es[k].output@, i + pre.len()));
        }
    }
}

/// Where a run stands: the graph node to execute next, and how many times in a
/// row it has been retried.
#[derive(Debug, Clone, Copy, PartialEq, Eq, Structural)]
pub struct ExecutionState {
    pub current: usize,
    pub retries: u32,
}

/// The state after a node that ran in state `st` ended with `status`: the
/// same node once more while it fails and retries are left, else the target
/// of the first firing transition (retries reset), or the end of the run.
pub open spec fn next_state(
    st: ExecutionState,
    status: NodeStatus,
    max_retries: u32,
    out: Seq<(usize, usize)>,
    ts: Seq<Transition>,
) -> Option<ExecutionState> {
    if status.is_failure() && st.retries < max_retries {
        Some(ExecutionState { current: st.current, retries: (st.retries + 1) as u32 })
    } else {
        match first_firing(out, ts, status) {
            Some(n) => Some(ExecutionState { current: n, retries: 0 }),
            None => None,
        }
    }
}

/// The state after `k` failures in a row of the node in state `st` (failures
/// after the run ended leave it ended).
pub open spec fn after_failures(e: BlueprintEngine, st: ExecutionState, k: nat) -> Option<
    ExecutionState,
>
    decreases k,
{
    if k == 0 {
        Some(st)
    } else {
        match after_failures(e, st, (k - 1) as nat) {
            Some(s) => next_state(
                s,
                NodeStatus::Fail,
                e.spec_blueprint().settings.max_retries,
                e.spec_outgoing(s.current),
                e.spec_blueprint().transitions@,
            ),
            None => None,
        }
    }
}

/// A node that keeps failing is executed exactly `max_retries + 1` times in a
/// row: after `k <= max_retries` failures of a freshly entered node the run
/// is still on that node with `k` retries counted, and the failure after the
/// last retry leaves it by its first firing transition (or ends the run).
pub proof fn law_consecutive_failures(e: BlueprintEngine, st: ExecutionState, k: nat)
    requires
        st.retries == 0,
        k <= e.spec_blueprint().settings.max_retries,
    ensures
        after_failures(e, st, k) == Some(ExecutionState { current: st.current, retries: k as u32 }),
        k == e.spec_blueprint().settings.max_retries ==> after_failures(e, st, k + 1) == match first_firing(
            e.spec_outgoing(st.current),
            e.spec_blueprint().transitions@,
            NodeStatus::Fail,
        ) {
            Some(n) => Some(ExecutionState { current: n, retries: 0 }),
            None => None,
        },
    decreases k,
{
    if k > 0 {
        law_consecutive_failures(e, st, (k - 1) as nat);
    }
}

/// Whatever a node's outcome, the next state never counts more retries than
/// the blueprint allows, and an outcome that is not a failure resets the count.
pub proof fn law_retry_bound(
    st: ExecutionState,
    status: NodeStatus,
    max_retries: u32,
    out: Seq<(usize, usize)>,
    ts: Seq<Transition>,
)
    requires
        st.retries <= max_retries,
    ensures
        next_state(st, status, max_retries, out, ts) matches Some(n) ==> n.retries <= max_retries,
        !status.is_failure() ==> (next_state(st, status, max_retries, out, ts) matches Some(n)
            ==> n.retries == 0),
{
}

/// The state after nodes end with `statuses` in turn, from state `st` (the
/// run ends, and stays ended, when no transition fires).
pub open spec fn run_from(e: BlueprintEngine, st: ExecutionState, statuses: Seq<NodeStatus>) -> Option<
    ExecutionState,
>
    decreases statuses.len(),
{
    if statuses.len() == 0 {
        Some(st)
    } else {
        match next_state(
            st,
            statuses[0],
            e.spec_blueprint().settings.max_retries,
            e.spec_outgoing(st.current),
            e.spec_blueprint().transitions@,
        ) {
            Some(s) => run_from(e, s, statuses.drop_first()),
            None => None,
        }
    }
}

/// Whether some transition leads from the node at position `a` to the node
/// at position `b` (endpoints are the nodes their identifiers index).
pub open spec fn has_edge(nodes: Seq<BlueprintNode>, ts: Seq<Transition>, a: int, b: int) -> bool {
    exists|k: int|
        0 <= k < ts.len() && last_index(nodes, (#[trigger] ts[k]).from@) == Some(a) && last_index(
            nodes,
            ts[k].to@,
        ) == Some(b)
}

/// Whether `p` is a walk along transitions: each position is followed by
/// one that a transition leads to.
pub open spec fn is_walk(nodes: Seq<BlueprintNode>, ts: Seq<Transition>, p: Seq<int>) -> bool {
    forall|i: int| 0 <= i < p.len() - 1 ==> #[trigger] has_edge(nodes, ts, p[i], p[i + 1])
}

/// Whether a cycle of transitions can be reached from the node at position
/// `s`: some walk from `s` comes back to a node it passed.
pub open spec fn reaches_cycle(nodes: Seq<BlueprintNode>, ts: Seq<Transition>, s: int) -> bool {
    exists|p: Seq<int>| p.len() > 0 && p[0] == s && is_walk(nodes, ts, p) && !p.no_duplicates()
}

/// The outgoing edges the graph of a well-formed engine walks are those of
/// its blueprint's transitions: from each node, in the graph's walking order
/// (the transition added last first).
pub proof fn lemma_outgoing_follows_transitions(e: BlueprintEngine, i: usize)
    requires
        e.wf(),
    ensures
        e.spec_outgoing(i) == outgoing(
            transition_edges(e.spec_blueprint().nodes@, e.spec_blueprint().transitions@),
            i,
        ),
        unknown_endpoint(e.spec_blueprint().nodes@, e.spec_blueprint().transitions@) is None,
        e.spec_blueprint().nodes@.len() < u32::MAX,
        e.spec_blueprint().transitions@.len() < u32::MAX,
{
}

/// A walk that passes no node twice is no longer than the number of nodes.
proof fn lemma_walk_length(p: Seq<int>, n: nat)
    requires
        p.no_duplicates(),
        forall|i: int| 0 <= i < p.len() ==> 0 <= #[trigger] p[i] < n,
    ensures
        p.len() <= n,
{
    p.unique_seq_to_set();
    vstd::set_lib::lemma_int_range(0, n as int);
    assert(p.to_set().subset_of(vstd::set_lib::set_int_range(0, n as int))) by {
        assert forall|x: int| p.to_set().contains(x) implies vstd::set_lib::set_int_range(0, n as int).contains(x) by {
            let i = choose|i: int| 0 <= i < p.len() && p[i] == x;
            assert(0 <= p[i] < n);
        }
    }
    vstd::set_lib::lemma_len_subset(p.to_set(), vstd::set_lib::set_int_range(0, n as int));
}

proof fn lemma_outgoing_edge(es: Seq<(usize, usize, usize)>, a: usize, j: int)
    requires
        0 <= j < outgoing(es, a).len(),
    ensures
        exists|i: int|
            0 <= i < es.len() && #[trigger] es[i] == (a, outgoing(es, a)[j].0, outgoing(es, a)[j].1),
    decreases es.len(),
{
    let d = es.drop_last();
    let e = es.last();
    if e.0 == a && j == 0 {
        assert(es[es.len() - 1] == (a, outgoing(es, a)[j].0, outgoing(es, a)[j].1));
    } else {
        let jj = if e.0 == a {
            j - 1
        } else {
            j
        };
        assert(outgoing(es, a)[j] == outgoing(d, a)[jj]);
        lemma_outgoing_edge(d, a, jj);
        let i = choose|i: int| 0 <= i < d.len() && #[trigger] d[i] == (a, outgoing(d, a)[jj].0, outgoing(d, a)[jj].1);
        assert(es[i] == d[i]);
    }
}

proof fn lemma_first_firing_in(out: Seq<(usize, usize)>, ts: Seq<Transition>, status: NodeStatus)
    ensures
        first_firing(out, ts, status) matches Some(t) ==> exists|j: int|
            0 <= j < out.len() && (#[trigger] out[j]).0 == t,
    decreases out.len(),
{
    if out.len() > 0 && !ts[out[0].1 as int].condition.spec_matches(status) {
        lemma_first_firing_in(out.drop_first(), ts, status);
        if first_firing(out.drop_first(), ts, status) is Some {
            let j = choose|j: int| 0 <= j < out.drop_first().len() && (#[trigger] out.drop_first()[j]).0
                == first_firing(out.drop_first(), ts, status)->0;
            assert(out[j + 1] == out.drop_first()[j]);
        }
    } else if out.len() > 0 {
        assert(out[0].0 == first_firing(out, ts, status)->0);
    }
}

/// The node a run moves to, when it leaves a node, is one a transition leads
/// to; when it stays, it counts one more retry.
proof fn lemma_step_moves_along(e: BlueprintEngine, st: ExecutionState, status: NodeStatus)
    requires
        e.wf(),
        st.current < e.spec_blueprint().nodes@.len(),
        st.retries <= e.spec_blueprint().settings.max_retries,
    ensures
        next_state(
            st,
            status,
            e.spec_blueprint().settings.max_retries,
            e.spec_outgoing(st.current),
            e.spec_blueprint().transitions@,
        ) matches Some(n) ==> {
            &&& n.current < e.spec_blueprint().nodes@.len()
            &&& n.retries <= e.spec_blueprint().settings.max_retries
            &&& (n.current == st.current && n.retries == st.retries + 1) || (n.retries == 0 && has_edge(
                e.spec_blueprint().nodes@,
                e.spec_blueprint().transitions@,
                st.current as int,
                n.current as int,
            ))
        },
{
    let nodes = e.spec_blueprint().nodes@;
    let ts = e.spec_blueprint().transitions@;
    let m = e.spec_blueprint().settings.max_retries;
    let out = e.spec_outgoing(st.current);
    let es = graph_edges(e.graph);
    if !(status.is_failure() && st.retries < m) {
        lemma_first_firing_in(out, ts, status);
        if first_firing(out, ts, status) is Some {
            let t = first_firing(out, ts, status)->0;
            let j = choose|j: int| 0 <= j < out.len() && (#[trigger] out[j]).0 == t;
            lemma_outgoing_edge(es, st.current, j);
            let i = choose|i: int| 0 <= i < es.len() && #[trigger] es[i] == (st.current, out[j].0, out[j].1);
            assert(es == transition_edges(nodes, ts));
            assert(es[i] == transition_edges(nodes, ts)[i]);
            lemma_unknown_endpoint_none(nodes, ts, i);
            lemma_last_index_bounds(nodes, ts[i].to@);
            lemma_last_index_bounds(nodes, ts[i].from@);
            assert(last_index(nodes, ts[i].to@) == Some(t as int));
            assert(last_index(nodes, ts[i].from@) == Some(st.current as int));
            assert(has_edge(nodes, ts, st.current as int, t as int));
        }
    }
}

/// A run that has walked `p` (ending at the current node, passing no node
/// twice) from a node that reaches no cycle has ended once more outcomes
/// come than it has room for.
proof fn lemma_run_ends(e: BlueprintEngine, st: ExecutionState, statuses: Seq<NodeStatus>, p: Seq<int>)
    requires
        e.wf(),
        st.current < e.spec_blueprint().nodes@.len(),
        st.retries <= e.spec_blueprint().settings.max_retries,
        p.len() > 0,
        p.last() == st.current,
        p.no_duplicates(),
        is_walk(e.spec_blueprint().nodes@, e.spec_blueprint().transitions@, p),
        forall|i: int| 0 <= i < p.len() ==> 0 <= #[trigger] p[i] < e.spec_blueprint().nodes@.len(),
        !reaches_cycle(e.spec_blueprint().nodes@, e.spec_blueprint().transitions@, p[0]),
        (e.spec_blueprint().nodes@.len() - p.len()) * (e.spec_blueprint().settings.max_retries + 1)
            + (e.spec_blueprint().settings.max_retries - st.retries) < statuses.len(),
    ensures
        run_from(e, st, statuses) is None,
    decreases statuses.len(),
{
    let nodes = e.spec_blueprint().nodes@;
    let ts = e.spec_blueprint().transitions@;
    let n = nodes.len();
    let m = e.spec_blueprint().settings.max_retries as nat;
    lemma_walk_length(p, n);
    lemma_step_moves_along(e, st, statuses[0]);
    match next_state(st, statuses[0], e.spec_blueprint().settings.max_retries, e.spec_outgoing(st.current), ts) {
        Some(nx) => {
            if nx.current == st.current && nx.retries == st.retries + 1 {
                lemma_run_ends(e, nx, statuses.drop_first(), p);
            } else {
                let q = p.push(nx.current as int);
                assert forall|i: int| 0 <= i < q.len() - 1 implies #[trigger] has_edge(nodes, ts, q[i], q[i + 1]) by {
                    if i < p.len() - 1 {
                        assert(has_edge(nodes, ts, p[i], p[i + 1]));
                    }
                }
                if !q.no_duplicates() {
                    assert(q[0] == p[0]);
                    assert(reaches_cycle(nodes, ts, p[0]));
                }
                assert(forall|i: int| 0 <= i < q.len() ==> 0 <= #[trigger] q[i] < n);
                lemma_walk_length(q, n);
                let l = p.len();
                let r = st.retries as nat;
                assert((n - (l + 1)) * (m + 1) + m < (n - l) * (m + 1) + (m - r)) by (nonlinear_arith)
                    requires
                        l + 1 <= n,
                        r <= m,
                ;
                lemma_run_ends(e, nx, statuses.drop_first(), q);
            }
        },
        None => {},
    }
}

/// A run that starts on a node from which no cycle of transitions can be
/// reached executes at most `(max_retries + 1) * nodes` nodes: whatever
/// their outcomes, the run has ended after that many of them. (Each node is
/// entered at most once, and run at most `max_retries + 1` times in a row.)
pub proof fn law_run_length(e: BlueprintEngine, st: ExecutionState, statuses: Seq<NodeStatus>)
    requires
        e.wf(),
        st.current < e.spec_blueprint().nodes@.len(),
        st.retries <= e.spec_blueprint().settings.max_retries,
        !reaches_cycle(e.spec_blueprint().nodes@, e.spec_blueprint().transitions@, st.current as int),
        statuses.len() >= (e.spec_blueprint().settings.max_retries + 1) * e.spec_blueprint().nodes@.len(),
    ensures
        run_from(e, st, statuses) is None,
{
    let n = e.spec_blueprint().nodes@.len();
    let m = e.spec_blueprint().settings.max_retries as nat;
    let r = st.retries as nat;
    let p = seq![st.current as int];
    assert((n - 1) * (m + 1) + (m - r) < (m + 1) * n) by (nonlinear_arith)
        requires
            r <= m,
            1 <= n,
    ;
    lemma_run_ends(e, st, statuses, p);
}

proof fn lemma_unknown_endpoint_prefix(nodes: Seq<BlueprintNode>, ts: Seq<Transition>, n: int)
    requires
        0 <= n <= ts.len(),
        unknown_endpoint(nodes, ts.take(n)) is Some,
    ensures
        unknown_endpoint(nodes, ts) == unknown_endpoint(nodes, ts.take(n)),
    decreases ts.len(),
{
    if n < ts.len() {
        assert(ts.drop_last().take(n) =~= ts.take(n));
        lemma_unknown_endpoint_prefix(nodes, ts.drop_last(), n);
    } else {
        assert(ts.take(n) =~= ts);
    }
}

} // verus!
