use goose_webtest::blueprint::engine::{EngineError, ExecutionState, NodeOutput};
use goose_webtest::blueprint::nodes::{BlueprintNode, DeterministicAction, NodeStatus, NodeType};
use goose_webtest::blueprint::transitions::{Transition, TransitionCondition};
use goose_webtest::blueprint::{Blueprint, BlueprintSettings};
use goose_webtest::config::test_spec::{TestScenario, TestSpec};
use goose_webtest::report::ReportCollector;
use goose_webtest::{AppConfig, BlueprintEngine};

fn det(id: &str, name: &str) -> BlueprintNode {
    BlueprintNode::Deterministic {
        id: id.to_string(),
        name: name.to_string(),
        action: DeterministicAction::LaunchBrowser,
        timeout_seconds: None,
    }
}

fn agentic(id: &str, name: &str, prompt: &str) -> BlueprintNode {
    BlueprintNode::Agentic {
        id: id.to_string(),
        name: name.to_string(),
        prompt: prompt.to_string(),
        max_turns: Some(5),
        tools: None,
        timeout_seconds: None,
    }
}

fn transition(from: &str, to: &str, condition: TransitionCondition) -> Transition {
    Transition { from: from.to_string(), to: to.to_string(), condition }
}

fn make_test_blueprint() -> Blueprint {
    Blueprint {
        version: "1.0".to_string(),
        name: "test-blueprint".to_string(),
        description: String::new(),
        settings: BlueprintSettings { max_retries: 2, timeout_seconds: 60, screenshot_on_every_step: true },
        nodes: vec![
            det("launch", "Launch Browser"),
            agentic("verify", "Verify Page", "Check the page loaded"),
        ],
        transitions: vec![transition("launch", "verify", TransitionCondition::OnSuccess)],
    }
}

fn make_test_app_config() -> AppConfig {
    let mut c = AppConfig::from_url("http://localhost:3000");
    c.target.name = "test-app".to_string();
    c
}

fn output(detail: &str) -> NodeOutput {
    NodeOutput { detail: detail.to_string(), screenshots: vec![], assertions: vec![] }
}

#[test]
fn test_blueprint_engine_new() {
    let engine = BlueprintEngine::new(make_test_blueprint(), make_test_app_config());
    assert!(engine.is_ok());
    let engine = engine.unwrap();
    assert_eq!(engine.blueprint().name, "test-blueprint");
    assert_eq!(engine.context_history_len(), 0);
}

#[test]
fn test_blueprint_engine_with_options_headless() {
    let engine = BlueprintEngine::with_options(make_test_blueprint(), make_test_app_config(), false);
    assert!(engine.is_ok());
}

#[test]
fn test_context_history_empty() {
    let engine = BlueprintEngine::new(make_test_blueprint(), make_test_app_config()).unwrap();
    let context = engine.build_context_prefix();
    assert!(context.is_empty());
}

#[test]
fn test_build_context_prefix_with_history() {
    let mut engine =
        BlueprintEngine::with_options(make_test_blueprint(), make_test_app_config(), false).unwrap();
    let node = agentic("node1", "Step 1", "do it");
    engine.finish_node(&node, 5, Ok(output("Completed successfully")));
    let context = engine.build_context_prefix();
    assert!(context.contains("Step 1"));
    assert!(context.contains("node1"));
    assert!(context.contains("Completed successfully"));
}

#[test]
fn test_build_app_context() {
    let engine = BlueprintEngine::new(make_test_blueprint(), make_test_app_config()).unwrap();
    let context = engine.build_app_context();
    assert!(context.contains("test-app"));
    assert!(context.contains("localhost:3000"));
}

#[test]
fn test_transition_resolution_onsuccess() {
    let engine = BlueprintEngine::new(make_test_blueprint(), make_test_app_config()).unwrap();
    let start_node = engine.blueprint().start_node().unwrap();
    let start_idx = engine.node_index(start_node.id()).unwrap();
    let next_idx = engine.resolve_next(start_idx, &NodeStatus::Pass);
    assert!(next_idx.is_some());
}

#[test]
fn test_transition_resolution_onfailure() {
    let mut blueprint = make_test_blueprint();
    blueprint.transitions.push(transition("launch", "verify", TransitionCondition::OnFailure));
    let engine = BlueprintEngine::new(blueprint, make_test_app_config()).unwrap();
    let start_node = engine.blueprint().start_node().unwrap();
    let start_idx = engine.node_index(start_node.id()).unwrap();
    let next_idx = engine.resolve_next(start_idx, &NodeStatus::Fail);
    assert!(next_idx.is_some());
}

#[test]
fn test_transition_resolution_always() {
    let mut blueprint = make_test_blueprint();
    blueprint.transitions.push(transition("launch", "verify", TransitionCondition::Always));
    let engine = BlueprintEngine::new(blueprint, make_test_app_config()).unwrap();
    let start_node = engine.blueprint().start_node().unwrap();
    let start_idx = engine.node_index(start_node.id()).unwrap();
    let next_pass = engine.resolve_next(start_idx, &NodeStatus::Pass);
    assert!(next_pass.is_some());
    let next_fail = engine.resolve_next(start_idx, &NodeStatus::Fail);
    assert!(next_fail.is_some());
}

#[test]
fn test_find_node() {
    let engine = BlueprintEngine::new(make_test_blueprint(), make_test_app_config()).unwrap();
    let node = engine.find_node("launch");
    assert!(node.is_some());
    let node = engine.find_node("nonexistent");
    assert!(node.is_none());
}

#[test]
fn test_set_report_dir() {
    let mut engine = BlueprintEngine::new(make_test_blueprint(), make_test_app_config()).unwrap();
    engine.set_report_dir("/tmp/test-reports".to_string());
    assert_eq!(engine.report_dir(), "/tmp/test-reports");
}

#[test]
fn test_set_test_spec() {
    let mut engine = BlueprintEngine::new(make_test_blueprint(), make_test_app_config()).unwrap();
    let spec = TestSpec {
        title: "test".to_string(),
        scenarios: vec![TestScenario { description: "test description".to_string() }],
    };
    engine.set_test_spec(spec);
    let prompt = engine.agentic_prompt("P");
    assert!(prompt.contains("--- Test Specification ---"));
    assert!(prompt.contains("1. test description"));
}

#[test]
fn test_graph_construction_from_blueprint() {
    let engine = BlueprintEngine::new(make_test_blueprint(), make_test_app_config()).unwrap();
    assert_eq!(engine.node_count(), 2);
    assert!(engine.node_index("launch").is_some());
    assert!(engine.node_index("verify").is_some());
}

#[test]
fn test_resolve_next_no_transition() {
    let empty_blueprint = Blueprint {
        version: "1.0".to_string(),
        name: "empty".to_string(),
        description: String::new(),
        settings: BlueprintSettings::default(),
        nodes: vec![det("single", "Single Node")],
        transitions: vec![],
    };
    let empty_engine = BlueprintEngine::new(empty_blueprint, make_test_app_config()).unwrap();
    let single_node = empty_engine.blueprint().start_node().unwrap();
    let single_idx = empty_engine.node_index(single_node.id()).unwrap();
    let next = empty_engine.resolve_next(single_idx, &NodeStatus::Pass);
    assert!(next.is_none());
}

#[test]
fn test_retry_logic() {
    let mut blueprint = make_test_blueprint();
    blueprint.settings.max_retries = 3;
    let engine = BlueprintEngine::new(blueprint, make_test_app_config()).unwrap();
    assert_eq!(engine.blueprint().settings.max_retries, 3);
}

#[test]
fn test_deterministic_node_creation() {
    let engine = BlueprintEngine::new(make_test_blueprint(), make_test_app_config()).unwrap();
    let launch_node = engine.blueprint().nodes.iter().find(|n| n.id() == "launch").unwrap();
    assert!(launch_node.is_deterministic());
}

#[test]
fn test_agentic_node_creation() {
    let engine = BlueprintEngine::new(make_test_blueprint(), make_test_app_config()).unwrap();
    let verify_node = engine.blueprint().nodes.iter().find(|n| n.id() == "verify").unwrap();
    assert!(!verify_node.is_deterministic());
}

#[test]
fn unknown_transition_endpoint_is_refused() {
    let mut blueprint = make_test_blueprint();
    blueprint.transitions.push(transition("verify", "ghost", TransitionCondition::Always));
    match BlueprintEngine::new(blueprint, make_test_app_config()) {
        Err(e) => {
            assert!(matches!(e, EngineError::UnknownNode(ref id) if id == "ghost"));
            assert_eq!(e.message(), "Unknown node in transition: ghost");
        }
        Ok(_) => panic!("an unknown node was accepted"),
    }
}

#[test]
fn empty_blueprint_cannot_start() {
    let blueprint = Blueprint {
        version: "1.0".to_string(),
        name: "none".to_string(),
        description: String::new(),
        settings: BlueprintSettings::default(),
        nodes: vec![],
        transitions: vec![],
    };
    let engine = BlueprintEngine::new(blueprint, make_test_app_config()).unwrap();
    match engine.start() {
        Err(e) => assert_eq!(e.message(), "Blueprint has no nodes"),
        Ok(_) => panic!("a run started without nodes"),
    }
}

#[test]
fn later_transition_fires_first() {
    // Transitions out of a node are tried newest first, as the graph lists them.
    let mut blueprint = make_test_blueprint();
    blueprint.nodes.push(det("other", "Other"));
    blueprint.transitions.push(transition("launch", "other", TransitionCondition::Always));
    let engine = BlueprintEngine::new(blueprint, make_test_app_config()).unwrap();
    let launch = engine.node_index("launch").unwrap();
    let other = engine.node_index("other").unwrap();
    let verify = engine.node_index("verify").unwrap();
    assert_eq!(engine.resolve_next(launch, &NodeStatus::Pass), Some(other));
    assert_eq!(engine.resolve_next(launch, &NodeStatus::Fail), Some(other));
    assert_ne!(other, verify);
}

#[test]
fn duplicate_ids_index_the_last_and_run_the_first() {
    let mut blueprint = make_test_blueprint();
    blueprint.nodes.push(det("launch", "Second Launch"));
    let engine = BlueprintEngine::new(blueprint, make_test_app_config()).unwrap();
    assert_eq!(engine.node_index("launch"), Some(2));
    assert_eq!(engine.find_node("launch").unwrap().name(), "Launch Browser");
    let st = engine.start().unwrap();
    assert_eq!(st, ExecutionState { current: 2, retries: 0 });
    assert_eq!(engine.current_node(&st).name(), "Launch Browser");
}

#[test]
fn failures_retry_then_follow_the_failure_transition() {
    let mut blueprint = make_test_blueprint();
    blueprint.transitions.push(transition("launch", "verify", TransitionCondition::OnFailure));
    let mut engine = BlueprintEngine::new(blueprint, make_test_app_config()).unwrap();
    let mut report = ReportCollector::new("test-app", "test-blueprint");
    let st = engine.start().unwrap();
    let launch = st.current;
    let verify = engine.node_index("verify").unwrap();
    let mut state = st;
    // max_retries = 2: two retries of the same node, then the transition.
    for expected_retries in 1..=2u32 {
        let node = engine.current_node(&state).clone();
        let r = engine.finish_node(&node, 1, Err("boom".to_string()));
        state = engine.advance(state, r, &mut report).unwrap();
        assert_eq!(state, ExecutionState { current: launch, retries: expected_retries });
    }
    let node = engine.current_node(&state).clone();
    let r = engine.finish_node(&node, 1, Err("boom".to_string()));
    state = engine.advance(state, r, &mut report).unwrap();
    assert_eq!(state, ExecutionState { current: verify, retries: 0 });
    let node = engine.current_node(&state).clone();
    let r = engine.finish_node(&node, 1, Ok(output("done")));
    assert_eq!(r.status, NodeStatus::Pass);
    assert_eq!(r.node_type, NodeType::Agentic);
    assert!(engine.advance(state, r, &mut report).is_none());
    assert_eq!(report.steps.len(), 4);
    assert_eq!(report.steps[0].error.as_deref(), Some("boom"));
    assert_eq!(engine.context_history_len(), 1);
}

#[test]
fn app_context_is_exact() {
    let mut config = make_test_app_config();
    config.auth.auth_type = "form".to_string();
    let engine = BlueprintEngine::new(make_test_blueprint(), config).unwrap();
    assert_eq!(
        engine.build_app_context(),
        "=== Application Under Test ===\nName: test-app\nBase URL: http://localhost:3000\nAuth: Logged in (form-based authentication completed)\nLanguage: en\nIMPORTANT: You are already in the browser on the application. Use browser_snapshot to see the current page. Do NOT navigate to localhost or any other URL \u{2014} stay on this application.\n=== End Application Context ===\n\n"
    );
}

#[test]
fn context_prefix_is_exact() {
    let mut engine = BlueprintEngine::new(make_test_blueprint(), make_test_app_config()).unwrap();
    engine.finish_node(&agentic("a", "A", "p"), 1, Ok(output("out a")));
    engine.finish_node(&det("d", "D"), 1, Ok(output("ignored")));
    engine.finish_node(&agentic("b", "B", "p"), 1, Err("failed".to_string()));
    assert_eq!(
        engine.build_context_prefix(),
        "=== Context from previous steps ===\n### A (node: a)\nout a\n\n=== End previous context ===\n\n"
    );
}

#[test]
fn run_on_acyclic_blueprint_ends_within_retries_times_nodes() {
    let mut blueprint = make_test_blueprint();
    blueprint.settings.max_retries = 1;
    blueprint.nodes.push(det("report", "Report"));
    blueprint.transitions = vec![
        transition("launch", "verify", TransitionCondition::Always),
        transition("verify", "report", TransitionCondition::Always),
    ];
    let mut engine = BlueprintEngine::new(blueprint, make_test_app_config()).unwrap();
    let mut report = ReportCollector::new("test-app", "test-blueprint");
    let mut state = Some(engine.start().unwrap());
    let mut executed = 0;
    while let Some(st) = state {
        let node = engine.current_node(&st).clone();
        let r = engine.finish_node(&node, 1, Err("boom".to_string()));
        state = engine.advance(st, r, &mut report);
        executed += 1;
        assert!(executed <= (1 + 1) * 3);
    }
    // Every node fails every time: each runs max_retries + 1 times.
    assert_eq!(executed, 6);
    assert_eq!(report.steps.len(), 6);
}

#[test]
fn unreachable_cycle_does_not_prolong_a_run() {
    let mut blueprint = make_test_blueprint();
    blueprint.settings.max_retries = 0;
    blueprint.nodes.push(det("x", "X"));
    blueprint.nodes.push(det("y", "Y"));
    blueprint.transitions = vec![
        transition("launch", "verify", TransitionCondition::Always),
        transition("x", "y", TransitionCondition::Always),
        transition("y", "x", TransitionCondition::Always),
    ];
    let mut engine = BlueprintEngine::new(blueprint, make_test_app_config()).unwrap();
    let mut report = ReportCollector::new("test-app", "test-blueprint");
    let mut state = Some(engine.start().unwrap());
    let mut executed = 0;
    while let Some(st) = state {
        let node = engine.current_node(&st).clone();
        let r = engine.finish_node(&node, 1, Err("boom".to_string()));
        state = engine.advance(st, r, &mut report);
        executed += 1;
        assert!(executed <= 4);
    }
    assert_eq!(executed, 2);
}
