use goose_webtest::assertions::{Assertion, AssertionType};
use goose_webtest::blueprint::nodes::{NodeResult, NodeStatus, NodeType};
use goose_webtest::report::html::{
    assertion_table, dir_screenshot_wanted, html_escape, node_type_name, result_class, result_label,
    screenshot_html, screenshot_markup, status_class, step_detail, step_html, truncate_str,
};
use goose_webtest::report::page::{page_html, render_page};
use goose_webtest::report::{OverallResult, ReportCollector, ReportMetadata, TestReport};

fn assertion(t: AssertionType, target: &str, passed: bool) -> Assertion {
    Assertion {
        assertion_type: t,
        target: target.to_string(),
        expected: "exp".to_string(),
        actual: "act".to_string(),
        passed,
        screenshot_path: None,
    }
}

fn result(id: &str, status: NodeStatus, assertions: Vec<Assertion>) -> NodeResult {
    NodeResult {
        node_id: id.to_string(),
        node_name: format!("Node {}", id),
        node_type: NodeType::Deterministic,
        status,
        duration_ms: 15,
        detail: None,
        screenshot_path: None,
        error: None,
        screenshots: vec![],
        assertions,
    }
}

#[test]
fn escape_replaces_markup_characters() {
    assert_eq!(html_escape("<a href=\"x\">&</a>"), "&lt;a href=&quot;x&quot;&gt;&amp;&lt;/a&gt;");
    assert_eq!(html_escape("plain 'text' ü"), "plain 'text' ü");
    assert_eq!(html_escape(""), "");
}

#[test]
fn truncate_str_marks_the_cut() {
    assert_eq!(truncate_str("abcdef", 3), "abc... [truncated]");
    assert_eq!(truncate_str("abc", 3), "abc");
    assert_eq!(truncate_str("äbc", 2), "ä... [truncated]");
}

#[test]
fn labels_and_classes() {
    assert_eq!(status_class(NodeStatus::Pass), "pass");
    assert_eq!(status_class(NodeStatus::Skip), "skip");
    assert_eq!(status_class(NodeStatus::Error), "error");
    assert_eq!(result_class(OverallResult::Partial), "partial");
    assert_eq!(result_label(OverallResult::Fail), "FAIL");
    assert_eq!(node_type_name(NodeType::Agentic), "Agentic");
    let a = assertion(AssertionType::Custom, "t", false);
    assert_eq!(a.status_label(), "FAIL");
}

#[test]
fn assertion_table_rows() {
    assert_eq!(assertion_table(&vec![]), "");
    let rows = vec![
        assertion(AssertionType::Visible, "<b>", true),
        assertion(AssertionType::UrlMatches, "url", false),
    ];
    assert_eq!(
        assertion_table(&rows),
        "<table class=\"assertions-table\">\n<tr><th>Status</th><th>Type</th><th>Target</th><th>Expected</th><th>Actual</th></tr>\n\
<tr class=\"pass\"><td><span class=\"assert-badge pass\">PASS</span></td><td>Visible</td><td>&lt;b&gt;</td><td>exp</td><td>act</td></tr>\n\
<tr class=\"fail\"><td><span class=\"assert-badge fail\">FAIL</span></td><td>UrlMatches</td><td>url</td><td>exp</td><td>act</td></tr>\n\
</table>"
    );
}

#[test]
fn screenshot_block_embeds_base64() {
    assert_eq!(
        screenshot_html(b"abc", "a<b>.png"),
        "<div class=\"screenshot\">\n  <img src=\"data:image/png;base64,YWJj\" alt=\"a&lt;b&gt;.png\">\n  <div class=\"caption\">a&lt;b&gt;.png</div>\n</div>"
    );
    assert!(screenshot_html(b"ab", "x").contains("base64,YWI="));
}

#[test]
fn directory_screenshots_of_a_step() {
    let mut step = result("launch", NodeStatus::Pass, vec![]);
    step.screenshots = vec!["/r/03_done.png".to_string()];
    assert!(dir_screenshot_wanted("03_login.png", "/r/03_login.png", 3, &step));
    assert!(dir_screenshot_wanted("launch_x.png", "/r/launch_x.png", 9, &step));
    assert!(!dir_screenshot_wanted("3_login.png", "/r/3_login.png", 3, &step));
    assert!(!dir_screenshot_wanted("03_login.jpg", "/r/03_login.jpg", 3, &step));
    assert!(!dir_screenshot_wanted("03_done.png", "/r/03_done.png", 3, &step));
    assert!(dir_screenshot_wanted("123_x.png", "/r/123_x.png", 123, &step));
}

#[test]
fn step_detail_and_markup() {
    let mut step = result("n1", NodeStatus::Fail, vec![]);
    step.detail = Some("line <1>".to_string());
    step.error = Some("bad & worse".to_string());
    let detail = step_detail(&step, &vec!["<img1>".to_string(), "<img2>".to_string()]);
    assert_eq!(
        detail,
        "<pre>line &lt;1&gt;</pre><div class=\"error-msg\"><strong>Error:</strong><pre>bad &amp; worse</pre></div><img1><img2>"
    );
    let html = step_html(7, &step, "15ms", "D");
    assert_eq!(
        html,
        "<div class=\"step\">\n  <div class=\"step-header\">\n    <span class=\"step-num\">7</span>\n    <span class=\"step-status fail\"></span>\n    <span class=\"step-name\">Node n1</span>\n    <span class=\"step-type\">Deterministic</span>\n    <span class=\"step-duration\">15ms</span>\n  </div>\n  <div class=\"step-detail\">\n    D\n  </div>\n</div>\n"
    );
    let long = "x".repeat(2500);
    step.detail = Some(long);
    step.error = None;
    let d = step_detail(&step, &vec![]);
    assert_eq!(d.len(), "<pre>".len() + 2000 + "... [truncated]".len() + "</pre>".len());
}

#[test]
fn summary_counts_and_verdict() {
    let mut c = ReportCollector::new("app", "bp");
    c.record_step(result("a", NodeStatus::Pass, vec![assertion(AssertionType::Visible, "x", true)]));
    c.record_step(result(
        "b",
        NodeStatus::Fail,
        vec![assertion(AssertionType::Visible, "x", false), assertion(AssertionType::Custom, "y", true)],
    ));
    c.record_step(result("c", NodeStatus::Error, vec![]));
    c.record_step(result("d", NodeStatus::Skip, vec![]));
    let s = c.summary();
    assert_eq!(
        (s.total_steps, s.passed, s.failed, s.errors, s.skipped),
        (4, 1, 1, 1, 1)
    );
    assert_eq!((s.assertions_total, s.assertions_passed, s.assertions_failed), (3, 2, 1));
    assert_eq!(s.result, OverallResult::Partial);
    // Every step counted once, every assertion once.
    assert_eq!(s.passed + s.failed + s.errors + s.skipped, s.total_steps);
    assert_eq!(s.assertions_passed + s.assertions_failed, s.assertions_total);
}

#[test]
fn verdicts() {
    let empty = ReportCollector::new("app", "bp");
    assert_eq!(empty.summary().result, OverallResult::Pass);
    let mut only_fail = ReportCollector::new("app", "bp");
    only_fail.record_step(result("a", NodeStatus::Fail, vec![]));
    only_fail.record_step(result("b", NodeStatus::Skip, vec![]));
    assert_eq!(only_fail.summary().result, OverallResult::Fail);
    let mut skips = ReportCollector::new("app", "bp");
    skips.record_step(result("a", NodeStatus::Skip, vec![]));
    assert_eq!(skips.summary().result, OverallResult::Pass);
}

#[test]
fn finalize_copies_the_run() {
    let mut c = ReportCollector::new("app", "bp");
    c.test_spec = Some("spec".to_string());
    c.record_step(result("a", NodeStatus::Pass, vec![]));
    let r = c.finalize("1.2.3");
    assert_eq!(r.metadata.report_id.len(), 36);
    assert_eq!(r.metadata.target_name, "app");
    assert_eq!(r.metadata.blueprint_name, "bp");
    assert_eq!(r.metadata.test_spec.as_deref(), Some("spec"));
    assert_eq!(r.metadata.agent_version, "1.2.3");
    assert!(r.metadata.duration_seconds >= 0);
    assert!(r.metadata.timestamp_millis >= c.start_time);
    assert_eq!(r.steps.len(), 1);
    assert_eq!(r.steps[0].node_id, "a");
    assert_eq!(r.summary.total_steps, 1);
    let again = c.finalize("1.2.3");
    assert_ne!(again.metadata.report_id, r.metadata.report_id);
}

fn sample_report() -> TestReport {
    let mut c = ReportCollector::new("My <App>", "bp");
    c.record_step(result("a", NodeStatus::Pass, vec![assertion(AssertionType::Visible, "x", true)]));
    c.record_step(result("b", NodeStatus::Fail, vec![]));
    let summary = c.summary();
    TestReport {
        metadata: ReportMetadata {
            report_id: "0123456789abcdef".to_string(),
            timestamp_millis: 0,
            duration_seconds: 12,
            target_name: "My <App>".to_string(),
            blueprint_name: "bp".to_string(),
            test_spec: Some("Spec & Co".to_string()),
            agent_version: "1.2.3".to_string(),
        },
        summary,
        steps: vec![],
    }
}

#[test]
fn page_shows_the_run() {
    let r = sample_report();
    let page = page_html(&r, "1970-01-01 00:00:00 UTC", 50, "<steps/>");
    assert!(page.starts_with("<!DOCTYPE html>\n<html lang=\"en\">"));
    assert!(page.ends_with("</body>\n</html>"));
    assert!(page.contains("<title>Test Report — My &lt;App&gt;</title>"));
    assert!(page.contains("<h1>My &lt;App&gt;</h1>"));
    assert!(page.contains("<br>Test Spec: Spec &amp; Co\n"));
    assert!(page.contains("<br>Report ID: 01234567\n"));
    assert!(page.contains("<br>1970-01-01 00:00:00 UTC &middot; 12.0s\n"));
    assert!(page.contains("<span class=\"badge partial\">PARTIAL</span>"));
    assert!(page.contains("<div class=\"value\">2</div>\n    <div class=\"label\">Total Steps</div>"));
    assert!(page.contains("<div class=\"label\">Assertions Passed</div>"));
    assert!(page.contains("style=\"width: 50%\""));
    assert!(page.contains("<h2>Step Timeline</h2>\n<steps/>\n\n<div class=\"footer\">"));
    assert!(page.contains("Generated by goose-webtest v1.2.3 &middot; 1970-01-01 00:00:00 UTC\n</div>"));
    assert!(page.contains(".badge.pass { background: var(--pass); color: #000; }"));
}

#[test]
fn page_without_assertions_or_spec() {
    let mut r = sample_report();
    r.summary.assertions_total = 0;
    r.metadata.test_spec = None;
    r.metadata.duration_seconds = -3;
    let page = page_html(&r, "T", 0, "");
    assert!(!page.contains("Assertions Passed"));
    assert!(!page.contains("Test Spec:"));
    assert!(page.contains("Blueprint: bp\n      \n      <br>Report ID"));
    assert!(page.contains("T &middot; -3.0s"));
}

#[test]
fn rendered_page_uses_utc_time() {
    let mut r = sample_report();
    r.metadata.timestamp_millis = 947_638_923_004;
    let page = render_page(&r, 50, "<steps/>").unwrap();
    assert_eq!(page, page_html(&r, "2000-01-12 01:02:03 UTC", 50, "<steps/>"));
    r.metadata.timestamp_millis = i64::MAX;
    assert!(render_page(&r, 50, "").is_none());
    // The ends of chrono's calendar are rendered; one millisecond beyond is not.
    r.metadata.timestamp_millis = 8_210_266_876_799_999;
    assert!(render_page(&r, 50, "").is_some());
    r.metadata.timestamp_millis = 8_210_266_876_800_000;
    assert!(render_page(&r, 50, "").is_none());
    r.metadata.timestamp_millis = -8_334_601_228_800_000;
    assert!(render_page(&r, 50, "").is_some());
    r.metadata.timestamp_millis = -8_334_601_228_800_001;
    assert!(render_page(&r, 50, "").is_none());
}

#[test]
fn screenshot_markup_from_base64() {
    assert_eq!(
        screenshot_markup("QQ==", "s.png"),
        "<div class=\"screenshot\">\n  <img src=\"data:image/png;base64,QQ==\" alt=\"s.png\">\n  <div class=\"caption\">s.png</div>\n</div>"
    );
}
