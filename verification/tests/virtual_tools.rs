use goose_webtest::assertions::AssertionType;
use goose_webtest::steps::agentic::{AgentAction, AgenticSession, ToolRoute};
use goose_webtest::steps::virtual_tools::{
    evaluate, evidence_label, forward_failed, is_virtual_tool, needs_snapshot, snapshot_failed, virtual_call,
    virtual_tool_names, virtual_tool_specs, ToolArgs, VirtualCall,
};

fn no_args() -> ToolArgs {
    ToolArgs {
        text: None,
        selector: None,
        expected: None,
        pattern: None,
        description: None,
        message: None,
        status: None,
    }
}

#[test]
fn virtual_tool_names_are_known() {
    assert_eq!(
        virtual_tool_names(),
        vec!["assert_visible", "assert_text_contains", "assert_url_matches", "assert_element_exists", "log_step"]
    );
    for n in virtual_tool_names() {
        assert!(is_virtual_tool(n));
    }
    assert!(!is_virtual_tool("browser_click"));
    assert!(!is_virtual_tool("log_step "));
}

#[test]
fn tool_specs_describe_parameters() {
    let specs = virtual_tool_specs();
    let names: Vec<&str> = specs.iter().map(|s| s.name.as_str()).collect();
    assert_eq!(names, virtual_tool_names());
    let log = &specs[4];
    assert_eq!(log.params.len(), 2);
    assert_eq!(log.params[0].name, "message");
    assert!(log.params[0].required);
    assert_eq!(log.params[1].name, "status");
    assert!(!log.params[1].required);
    assert_eq!(log.params[1].choices, vec!["info", "pass", "fail", "warning"]);
    assert!(specs[0].description.starts_with("Assert that specific text is visible"));
    assert_eq!(specs[1].params.iter().filter(|p| p.required).count(), 2);
    assert!(!specs[3].params[1].required);
}

#[test]
fn calls_from_arguments() {
    let mut args = no_args();
    args.message = Some("m".to_string());
    match virtual_call("log_step", args) {
        VirtualCall::LogStep { message, status } => {
            assert_eq!(message, "m");
            assert_eq!(status, "info");
        }
        _ => panic!("not a log step"),
    }
    match virtual_call("assert_visible", no_args()) {
        VirtualCall::AssertVisible { text } => assert_eq!(text, ""),
        _ => panic!("not a visibility assertion"),
    }
    match virtual_call("other", no_args()) {
        VirtualCall::Unknown { name } => assert_eq!(name, "other"),
        _ => panic!("not unknown"),
    }
}

#[test]
fn assert_visible_ignores_case() {
    let c = VirtualCall::AssertVisible { text: "Kontostand".to_string() };
    assert!(needs_snapshot(&c));
    assert_eq!(evidence_label(&c).as_deref(), Some("assert_visible_Kontostand"));
    let (a, reply) = evaluate(&c, "- heading \"Ihr KONTOSTAND\"", Some("/r/e.png".to_string()));
    let a = a.unwrap();
    assert_eq!(a.assertion_type, AssertionType::Visible);
    assert_eq!(a.target, "Kontostand");
    assert_eq!(a.expected, "Text 'Kontostand' visible on page");
    assert_eq!(a.actual, "Found");
    assert!(a.passed);
    assert_eq!(a.screenshot_path.as_deref(), Some("/r/e.png"));
    assert_eq!(reply.text, "PASS: Text 'Kontostand' is visible on the page");
    assert!(!reply.is_error);
    let (a, reply) = evaluate(&c, "nothing", None);
    assert!(!a.unwrap().passed);
    assert_eq!(reply.text, "FAIL: Text 'Kontostand' is NOT visible on the page");
}

#[test]
fn assert_text_contains() {
    let c = VirtualCall::AssertTextContains {
        selector: "balance".to_string(),
        expected: "100 EUR".to_string(),
    };
    assert_eq!(evidence_label(&c).as_deref(), Some("assert_text_100_EUR"));
    let (a, reply) = evaluate(&c, "Balance: 100 eur", None);
    let a = a.unwrap();
    assert_eq!(a.assertion_type, AssertionType::TextContains);
    assert_eq!(a.target, "balance");
    assert_eq!(a.expected, "100 EUR");
    assert_eq!(a.actual, "Contains '100 EUR'");
    assert_eq!(reply.text, "PASS: Element 'balance' contains '100 EUR'");
    let (a, reply) = evaluate(&c, "Balance: 99", None);
    assert_eq!(a.unwrap().actual, "Not found");
    assert_eq!(reply.text, "FAIL: Element 'balance' does NOT contain '100 EUR'");
    let c = VirtualCall::AssertTextContains { selector: "a".to_string(), expected: "b".to_string() };
    let (a, reply) = evaluate(&c, "a\nb", None);
    assert!(!a.unwrap().passed);
    assert_eq!(reply.text, "FAIL: Element 'a' does NOT contain 'b'");
    let (a, _) = evaluate(&c, "x\nA and B", None);
    assert!(a.unwrap().passed);
}

#[test]
fn assert_url_matches_reads_the_page_url() {
    let c = VirtualCall::AssertUrlMatches { pattern: "Dashboard".to_string() };
    assert_eq!(evidence_label(&c), None);
    let (a, reply) = evaluate(&c, "- title\n- page url: https://x/dashboard?a=1  \n- more", None);
    let a = a.unwrap();
    assert_eq!(a.assertion_type, AssertionType::UrlMatches);
    assert_eq!(a.target, "current URL");
    assert_eq!(a.expected, "Dashboard");
    assert_eq!(a.actual, "https://x/dashboard?a=1");
    assert!(a.passed);
    assert!(a.screenshot_path.is_none());
    assert_eq!(reply.text, "PASS: URL 'https://x/dashboard?a=1' matches pattern 'Dashboard'");
    let (a, reply) = evaluate(&c, "no url here", None);
    assert_eq!(a.unwrap().actual, "");
    assert_eq!(reply.text, "FAIL: URL '' does NOT match pattern 'Dashboard'");
    let c = VirtualCall::AssertUrlMatches { pattern: "page".to_string() };
    let (a, reply) = evaluate(&c, "- Page URL: https://a.com", None);
    let a = a.unwrap();
    assert_eq!(a.actual, "https://a.com");
    assert!(!a.passed);
    assert_eq!(reply.text, "FAIL: URL 'https://a.com' does NOT match pattern 'page'");
}

#[test]
fn assert_element_exists() {
    let c = VirtualCall::AssertElementExists { description: "Button".to_string(), text: String::new() };
    let (a, reply) = evaluate(&c, "- button \"Save\"", None);
    let a = a.unwrap();
    assert_eq!(a.expected, "Element 'Button' exists");
    assert!(a.passed);
    assert_eq!(reply.text, "PASS: Element 'Button' exists");
    let c = VirtualCall::AssertElementExists { description: "button".to_string(), text: "Cancel".to_string() };
    let (a, reply) = evaluate(&c, "- button \"Save\"", None);
    let a = a.unwrap();
    assert_eq!(a.expected, "Element 'button' with text 'Cancel'");
    assert_eq!(a.actual, "Not found");
    assert_eq!(reply.text, "FAIL: Element 'button' does NOT exist");
    let (a, _) = evaluate(&c, "- button \"Save\"\n- text \"Cancel\"", None);
    assert!(!a.unwrap().passed);
    let (a, reply) = evaluate(&c, "- heading\n- button \"Cancel\"", None);
    assert!(a.unwrap().passed);
    assert_eq!(reply.text, "PASS: Element 'button' exists");
}

#[test]
fn log_step_and_unknown() {
    let c = VirtualCall::LogStep { message: "checked".to_string(), status: "warning".to_string() };
    assert!(!needs_snapshot(&c));
    let (a, reply) = evaluate(&c, "", None);
    assert!(a.is_none());
    assert_eq!(reply.text, "[WARNING] checked");
    assert!(!reply.is_error);
    let (a, reply) = evaluate(&VirtualCall::Unknown { name: "zap".to_string() }, "", None);
    assert!(a.is_none());
    assert_eq!(reply.text, "Unknown virtual tool: zap");
    assert!(reply.is_error);
    let r = snapshot_failed("down");
    assert_eq!(r.text, "Failed to take snapshot: down");
    assert!(r.is_error);
}

#[test]
fn agentic_session_turns_and_files() {
    let mut s = AgenticSession::new(None, Some("/r".to_string()));
    assert_eq!(s.max_turns, 5);
    assert_eq!(s.route("assert_visible"), ToolRoute::Virtual);
    assert_eq!(s.route("browser_take_screenshot"), ToolRoute::ScreenshotThenForward);
    assert_eq!(s.route("browser_click"), ToolRoute::Forward);
    assert_eq!(s.next_agentic_screenshot().as_deref(), Some("/r/agentic_001.png"));
    assert_eq!(s.next_evidence_screenshot("assert_visible_x").as_deref(), Some("/r/evidence_002_assert_visible_x.png"));
    s.record_screenshot("/r/agentic_001.png".to_string());
    let mut turns = 0;
    while s.can_take_turn() {
        s.end_turn();
        turns += 1;
    }
    assert_eq!(turns, 5);
    assert_eq!(s.exhausted_error(), "Agentic node exceeded max turns (5) without completing");
    let out = s.finish(&vec!["a".to_string(), "b".to_string()]);
    assert_eq!(out.text, "a\nb");
    assert_eq!(out.screenshots, vec!["/r/agentic_001.png"]);

    let mut none = AgenticSession::new(Some(1), None);
    assert_eq!(none.route("browser_take_screenshot"), ToolRoute::Forward);
    assert_eq!(none.next_agentic_screenshot(), None);
    assert_eq!(none.screenshot_counter, 0);
    assert!(none.can_take_turn());
    none.end_turn();
    assert!(!none.can_take_turn());
}

#[test]
fn agent_loop_asks_at_most_max_turns() {
    // Replies ask for 2, 1, then 0 tools: the third reply ends the run.
    let replies = [2usize, 1, 0, 3];
    let mut s = AgenticSession::new(Some(5), Some("/r".to_string()));
    s.record_screenshot("/r/agentic_001.png".to_string());
    let mut asks = 0;
    let mut out = None;
    while s.can_take_turn() {
        let n = replies[asks];
        asks += 1;
        match s.take_reply(n, &vec![format!("reply {}", asks), "done".to_string()]) {
            AgentAction::Finish(o) => {
                out = Some(o);
                break;
            }
            AgentAction::RunTools => {}
        }
    }
    assert_eq!(asks, 3);
    assert_eq!(s.turn, 2);
    let out = out.unwrap();
    assert_eq!(out.text, "reply 3\ndone");
    assert_eq!(out.screenshots, vec!["/r/agentic_001.png"]);

    // Every reply asks for tools: the model is asked exactly twice.
    let mut s = AgenticSession::new(Some(2), None);
    let mut asks = 0;
    while s.can_take_turn() {
        asks += 1;
        assert!(matches!(s.take_reply(1, &vec![]), AgentAction::RunTools));
    }
    assert_eq!(asks, 2);
    assert_eq!(s.exhausted_error(), "Agentic node exceeded max turns (2) without completing");
    match AgenticSession::new(None, None).take_reply(0, &vec![]) {
        AgentAction::Finish(o) => {
            assert_eq!(o.text, "");
            assert!(o.screenshots.is_empty());
        }
        AgentAction::RunTools => panic!("a reply without tools ends the run"),
    }
}

#[test]
fn failed_browser_tool_becomes_error_reply() {
    let r = forward_failed("timeout");
    assert_eq!(r.text, "Error: timeout");
    assert!(r.is_error);
}
