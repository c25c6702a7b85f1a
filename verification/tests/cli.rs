use goose_webtest::cli::{
    blueprint_candidates, blueprint_not_found, ci_exit_code, default_blueprint, report_file_name,
    results_text, ReportFormat,
};
use goose_webtest::playwright::{
    decoded_screenshot, extract_text, playwright_args, poll_interval_ms, screenshot_bytes, screenshot_data, tool_error, wait_step, ToolContent,
    ToolOutput, WaitStep,
};
use goose_webtest::report::{OverallResult, ReportCollector};
use goose_webtest::steps::provider::{parse_i32, parse_usize, ProviderEnv};
use std::str::FromStr;

#[test]
fn report_formats() {
    assert_eq!(ReportFormat::parse("json"), Ok(ReportFormat::Json));
    assert_eq!(ReportFormat::parse("HTML"), Ok(ReportFormat::Html));
    assert_eq!(ReportFormat::parse("Both"), Ok(ReportFormat::Both));
    assert_eq!(
        ReportFormat::parse("xml"),
        Err("Unknown format: xml. Expected: json, html, both".to_string())
    );
    assert_eq!(ReportFormat::from_str("JSON"), Ok(ReportFormat::Json));
    assert_eq!(ReportFormat::from_arg("pdf"), ReportFormat::Both);
    assert_eq!(ReportFormat::from_arg("html"), ReportFormat::Html);
    assert!(ReportFormat::Json.writes_json() && !ReportFormat::Json.writes_html());
    assert!(ReportFormat::Both.writes_json() && ReportFormat::Both.writes_html());
    assert!(!ReportFormat::Html.writes_json() && ReportFormat::Html.writes_html());
}

#[test]
fn blueprint_selection() {
    assert_eq!(blueprint_candidates("smoke"), vec!["blueprints/smoke.yaml", "blueprints/smoke.yml"]);
    assert_eq!(blueprint_not_found("smoke"), "Blueprint not found: smoke");
    assert_eq!(default_blueprint(true, true), "blueprints/login-test.yaml");
    assert_eq!(default_blueprint(false, false), "blueprints/auto-discover.yaml");
    assert_eq!(default_blueprint(false, true), "blueprints/explore-and-report.yaml");
    assert_eq!(report_file_name("20240101_120000", "json"), "report_20240101_120000.json");
}

#[test]
fn ci_exit_codes() {
    assert_eq!(ci_exit_code(OverallResult::Pass), 0);
    assert_eq!(ci_exit_code(OverallResult::Fail), 1);
    assert_eq!(ci_exit_code(OverallResult::Partial), 1);
    assert_eq!(ci_exit_code(OverallResult::Error), 2);
}

#[test]
fn results_lines() {
    let c = ReportCollector::new("app", "bp");
    let mut r = c.finalize("0.1.0");
    r.metadata.duration_seconds = 42;
    assert_eq!(
        results_text(&r),
        "  RESULTS: Pass\n  Steps: 0 total | 0 passed | 0 failed | 0 errors\n  Duration: 42.0s"
    );
}

#[test]
fn integer_parsing() {
    assert_eq!(parse_i32("16384"), Some(16384));
    assert_eq!(parse_i32("+7"), Some(7));
    assert_eq!(parse_i32("-2147483648"), Some(i32::MIN));
    assert_eq!(parse_i32("2147483647"), Some(i32::MAX));
    assert_eq!(parse_i32("2147483648"), None);
    assert_eq!(parse_i32("-"), None);
    assert_eq!(parse_i32(""), None);
    assert_eq!(parse_i32(" 1"), None);
    assert_eq!(parse_i32("1_000"), None);
    assert_eq!(parse_i32("007"), Some(7));
    assert_eq!(parse_usize("262144"), Some(262144));
    assert_eq!(parse_usize("+3"), Some(3));
    assert_eq!(parse_usize("-0"), None);
    assert_eq!(parse_usize("18446744073709551616"), None);
    for s in ["0", "12", "-12", "+12", "abc", "99999999999", "-2147483649"] {
        assert_eq!(parse_i32(s), s.parse::<i32>().ok(), "{}", s);
        assert_eq!(parse_usize(s), s.parse::<usize>().ok(), "{}", s);
    }
}

fn env() -> ProviderEnv {
    ProviderEnv {
        webtest_provider: None,
        goose_provider: None,
        config_provider: None,
        webtest_model: None,
        goose_model: None,
        config_model: None,
        webtest_max_tokens: None,
        goose_max_tokens: None,
        webtest_context_limit: None,
    }
}

#[test]
fn provider_defaults_and_overrides() {
    let s = env().settings("anthropic/default-model");
    assert_eq!(s.provider, "anthropic");
    assert_eq!(s.model, "anthropic/default-model");
    assert_eq!(s.max_tokens, 16384);
    assert_eq!(s.context_limit, 262144);
    let mut e = env();
    e.goose_provider = Some("openai".to_string());
    e.config_provider = Some("ollama".to_string());
    e.config_model = Some("m1".to_string());
    e.goose_max_tokens = Some("4096".to_string());
    e.webtest_context_limit = Some("1000".to_string());
    let s = e.settings("d");
    assert_eq!((s.provider.as_str(), s.model.as_str()), ("openai", "m1"));
    assert_eq!((s.max_tokens, s.context_limit), (4096, 1000));
    // A set but unreadable token limit falls back to the default, not to the other variable.
    e.webtest_max_tokens = Some("lots".to_string());
    e.webtest_provider = Some("google".to_string());
    let s = e.settings("d");
    assert_eq!(s.max_tokens, 16384);
    assert_eq!(s.provider, "google");
}

#[test]
fn tool_replies() {
    let out = ToolOutput {
        is_error: Some(false),
        content: vec![
            ToolContent::Text("a".to_string()),
            ToolContent::Other,
            ToolContent::Image("AAAA".to_string()),
            ToolContent::Text("b".to_string()),
        ],
    };
    assert_eq!(extract_text(&out), "a\nb");
    assert_eq!(tool_error("browser_click", &out), None);
    let err = ToolOutput { is_error: Some(true), content: vec![ToolContent::Other, ToolContent::Text("boom".to_string())] };
    assert_eq!(tool_error("browser_click", &err).as_deref(), Some("Tool 'browser_click' returned error: boom"));
    let bare = ToolOutput { is_error: Some(true), content: vec![] };
    assert_eq!(tool_error("t", &bare).as_deref(), Some("Tool 't' returned error: Unknown tool error"));
    assert_eq!(tool_error("t", &ToolOutput { is_error: None, content: vec![] }), None);
}

#[test]
fn screenshot_replies() {
    let ok = ToolOutput { is_error: None, content: vec![ToolContent::Text("t".to_string()), ToolContent::Image("YWJj".to_string())] };
    assert_eq!(screenshot_data(&ok), Ok("YWJj".to_string()));
    let none = ToolOutput { is_error: None, content: vec![ToolContent::Text("t".to_string())] };
    assert_eq!(screenshot_data(&none), Err("Screenshot returned no image content".to_string()));
    let two = ToolOutput { is_error: None, content: vec![ToolContent::Image("!!".to_string()), ToolContent::Image("YWJj".to_string())] };
    assert_eq!(screenshot_data(&two), Ok("!!".to_string()));
    assert_eq!(screenshot_bytes("YWJj"), Ok(b"abc".to_vec()));
    let e = screenshot_bytes("!!").unwrap_err();
    assert!(e.starts_with("Failed to decode screenshot: "));
}

#[test]
fn polling_for_text() {
    assert_eq!(poll_interval_ms(), 500);
    assert_eq!(wait_step("a Saved b", "Saved", u128::MAX, 1), WaitStep::Found);
    assert_eq!(wait_step("nothing", "Saved", 1_000_000_001, 1000), WaitStep::TimedOut);
    assert_eq!(wait_step("nothing", "Saved", 1_000_000_000, 1000), WaitStep::Poll);
}

#[test]
fn playwright_server_arguments() {
    assert_eq!(playwright_args(true), vec!["@playwright/mcp@latest", "--browser", "chromium", "--headless"]);
    assert_eq!(playwright_args(false), vec!["@playwright/mcp@latest", "--browser", "chromium"]);
}

#[test]
fn decoded_screenshot_messages() {
    assert_eq!(decoded_screenshot(Ok(vec![1, 2])), Ok(vec![1, 2]));
    assert_eq!(
        decoded_screenshot(Err("Invalid padding".to_string())),
        Err("Failed to decode screenshot: Invalid padding".to_string())
    );
}
