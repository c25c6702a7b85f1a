use goose_webtest::blueprint::engine::NodeOutput;
use goose_webtest::blueprint::nodes::{BlueprintNode, DeterministicAction};
use goose_webtest::blueprint::transitions::{Transition, TransitionCondition};
use goose_webtest::blueprint::{Blueprint, BlueprintSettings};
use goose_webtest::report::html::html_escape;
use goose_webtest::report::ReportCollector;
use goose_webtest::steps::agentic::{extract_ref, AgenticSession};
use goose_webtest::steps::deterministic::{DeterministicExecutor, LoginEvent, LoginState};
use goose_webtest::steps::provider::{parse_i32, parse_usize};
use goose_webtest::text::decimal;
use goose_webtest::{AppConfig, BlueprintEngine};

#[test]
fn escaped_text_has_no_markup() {
    let e = html_escape("<script>alert(\"x\")</script> & more");
    assert!(!e.contains('<') && !e.contains('>') && !e.contains('"'));
    assert_eq!(html_escape("plain"), "plain");
}

#[test]
fn decimal_reads_back() {
    for n in [0u64, 7, 10, 99, 12345, 2147483647, 4294967296] {
        let text: String = decimal(n).into_iter().collect();
        assert_eq!(text, n.to_string());
        assert_eq!(parse_usize(&text), Some(n as usize));
        if n <= i32::MAX as u64 {
            assert_eq!(parse_i32(&text), Some(n as i32));
        }
    }
}

#[test]
fn numbered_screenshots_get_their_own_files() {
    let mut ex = DeterministicExecutor::new(AppConfig::from_url("http://h"), false);
    let a = ex.next_screenshot_path("x");
    let b = ex.next_screenshot_path("x");
    assert_ne!(a, b);
    let mut s = AgenticSession::new(None, Some("d".to_string()));
    let f1 = s.next_agentic_screenshot().unwrap();
    let f2 = s.next_evidence_screenshot("l").unwrap();
    let f3 = s.next_agentic_screenshot().unwrap();
    assert!(f1 != f2 && f2 != f3 && f1 != f3);
}

#[test]
fn a_failing_node_runs_at_most_max_retries_plus_one_times() {
    let node = BlueprintNode::Deterministic {
        id: "only".to_string(),
        name: "Only".to_string(),
        action: DeterministicAction::LaunchBrowser,
        timeout_seconds: None,
    };
    let blueprint = Blueprint {
        version: "1.0".to_string(),
        name: "b".to_string(),
        description: String::new(),
        settings: BlueprintSettings { max_retries: 3, timeout_seconds: 1, screenshot_on_every_step: false },
        nodes: vec![node],
        transitions: vec![Transition {
            from: "only".to_string(),
            to: "only".to_string(),
            condition: TransitionCondition::OnSuccess,
        }],
    };
    let mut engine = BlueprintEngine::new(blueprint, AppConfig::from_url("http://h")).unwrap();
    let mut report = ReportCollector::new("a", "b");
    let mut st = Some(engine.start().unwrap());
    let mut runs = 0;
    while let Some(s) = st {
        let n = engine.current_node(&s).clone();
        let r = engine.finish_node(&n, 0, Err::<NodeOutput, String>("down".to_string()));
        st = engine.advance(s, r, &mut report);
        runs += 1;
        assert!(runs <= 4);
    }
    assert_eq!(runs, 4);
    assert_eq!(report.steps.len(), 4);
}

#[test]
fn a_login_ends_within_its_step_budget() {
    // Every browser step fails: the login ends right away, with that error.
    let mut c = AppConfig::from_url("https://x");
    c.auth.auth_type = "form".to_string();
    let mut ex = DeterministicExecutor::new(c, false);
    let (st, _) = ex.login_step(LoginState::Start, LoginEvent::Completed);
    let (st, a) = ex.login_step(st, LoginEvent::Failed("e".to_string()));
    assert_eq!(st, LoginState::Finished);
    assert_eq!(format!("{:?}", a), "Finish(Err(\"e\"))");
}

#[test]
fn references_come_from_their_line() {
    for line in ["- textbox [ref=e46]: chipDEMO", "button ref=e7_x, more", "- link [ref=a]b]"] {
        let r = extract_ref(line).unwrap();
        assert!(!r.is_empty() && line.contains(&r));
    }
}
