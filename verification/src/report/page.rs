//! The report page as a whole: the head with its style sheet, the header
//! with the run's metadata, the counters, the progress bar, the step
//! timeline, the footer and the script that opens failed steps.

use vstd::prelude::*;

use super::html::{result_class, result_label, spec_result_class, spec_result_label};
use super::html::{html_escape, spec_html_escape};
use super::{ReportMetadata, ReportSummary, TestReport};
use crate::steps::agentic::{cut_ok, spec_truncate, truncate};
use crate::text::{decimal, extend_chars, extend_str, lemma_contains_middle, spec_contains, spec_decimal, string_from_chars};

verus! {

/// The start of the page, up to the title text.
pub const PAGE_START: &'static str = "<!DOCTYPE html>
<html lang=\"en\">
<head>
<meta charset=\"utf-8\">
<meta name=\"viewport\" content=\"width=device-width, initial-scale=1\">
<title>Test Report — ";

/// The rest of the head, with the style sheet, and the start of the header,
/// up to the heading text.
pub const PAGE_STYLE: &'static str = "</title>
<style>
:root {
  --pass: #22c55e;
  --fail: #ef4444;
  --partial: #f59e0b;
  --error: #dc2626;
  --bg: #0f172a;
  --surface: #1e293b;
  --surface2: #334155;
  --text: #f1f5f9;
  --text-dim: #94a3b8;
  --border: #475569;
}
* { margin: 0; padding: 0; box-sizing: border-box; }
body {
  font-family: -apple-system, BlinkMacSystemFont, 'Segoe UI', system-ui, sans-serif;
  background: var(--bg);
  color: var(--text);
  line-height: 1.6;
  padding: 2rem;
  max-width: 1200px;
  margin: 0 auto;
}
.header {
  display: flex;
  justify-content: space-between;
  align-items: flex-start;
  margin-bottom: 2rem;
  padding-bottom: 1.5rem;
  border-bottom: 1px solid var(--border);
}
.header h1 {
  font-size: 1.5rem;
  font-weight: 600;
}
.header .meta {
  font-size: 0.85rem;
  color: var(--text-dim);
  margin-top: 0.25rem;
}
.badge {
  display: inline-block;
  padding: 0.35rem 1rem;
  border-radius: 6px;
  font-weight: 700;
  font-size: 1rem;
  text-transform: uppercase;
  letter-spacing: 0.05em;
}
.badge.pass { background: var(--pass); color: #000; }
.badge.fail { background: var(--fail); color: #fff; }
.badge.partial { background: var(--partial); color: #000; }
.badge.error { background: var(--error); color: #fff; }
.stats {
  display: grid;
  grid-template-columns: repeat(auto-fit, minmax(140px, 1fr));
  gap: 1rem;
  margin-bottom: 2rem;
}
.stat-card {
  background: var(--surface);
  border-radius: 8px;
  padding: 1rem 1.25rem;
  border: 1px solid var(--border);
}
.stat-card .value {
  font-size: 1.75rem;
  font-weight: 700;
}
.stat-card .label {
  font-size: 0.8rem;
  color: var(--text-dim);
  text-transform: uppercase;
  letter-spacing: 0.05em;
}
.stat-card.pass .value { color: var(--pass); }
.stat-card.fail .value { color: var(--fail); }
.progress-bar {
  background: var(--surface2);
  border-radius: 4px;
  height: 8px;
  margin-bottom: 2rem;
  overflow: hidden;
}
.progress-bar .fill {
  height: 100%;
  border-radius: 4px;
  transition: width 0.3s;
}
.progress-bar .fill.pass { background: var(--pass); }
.progress-bar .fill.partial { background: var(--partial); }
.progress-bar .fill.fail { background: var(--fail); }
h2 {
  font-size: 1.1rem;
  font-weight: 600;
  margin-bottom: 1rem;
  color: var(--text-dim);
  text-transform: uppercase;
  letter-spacing: 0.05em;
}
.step {
  background: var(--surface);
  border-radius: 8px;
  border: 1px solid var(--border);
  margin-bottom: 0.75rem;
  overflow: hidden;
}
.step-header {
  display: flex;
  align-items: center;
  padding: 0.75rem 1rem;
  cursor: pointer;
  gap: 0.75rem;
}
.step-header:hover {
  background: var(--surface2);
}
.step-num {
  font-size: 0.75rem;
  font-weight: 700;
  color: var(--text-dim);
  width: 1.5rem;
  text-align: center;
}
.step-status {
  width: 10px;
  height: 10px;
  border-radius: 50%;
  flex-shrink: 0;
}
.step-status.pass { background: var(--pass); }
.step-status.fail { background: var(--fail); }
.step-status.skip { background: var(--text-dim); }
.step-status.error { background: var(--error); }
.step-name {
  flex: 1;
  font-weight: 500;
}
.step-type {
  font-size: 0.7rem;
  padding: 0.15rem 0.5rem;
  border-radius: 4px;
  background: var(--surface2);
  color: var(--text-dim);
  text-transform: uppercase;
}
.step-duration {
  font-size: 0.8rem;
  color: var(--text-dim);
  min-width: 4rem;
  text-align: right;
}
.step-detail {
  display: none;
  padding: 0 1rem 1rem;
  border-top: 1px solid var(--border);
}
.step.open .step-detail {
  display: block;
}
.step-detail pre {
  background: var(--bg);
  padding: 0.75rem;
  border-radius: 6px;
  font-size: 0.8rem;
  overflow-x: auto;
  white-space: pre-wrap;
  word-break: break-word;
  margin-top: 0.5rem;
}
.step-detail .error-msg {
  color: var(--fail);
  margin-top: 0.5rem;
}
.screenshot {
  margin-top: 0.75rem;
  border-radius: 6px;
  overflow: hidden;
  border: 1px solid var(--border);
}
.screenshot img {
  width: 100%;
  display: block;
}
.screenshot .caption {
  padding: 0.4rem 0.75rem;
  font-size: 0.75rem;
  color: var(--text-dim);
  background: var(--bg);
}
.assertions-table {
  margin-top: 0.75rem;
  width: 100%;
  border-collapse: collapse;
  font-size: 0.8rem;
}
.assertions-table th {
  text-align: left;
  padding: 0.4rem 0.6rem;
  background: var(--bg);
  color: var(--text-dim);
  font-weight: 600;
  text-transform: uppercase;
  font-size: 0.7rem;
  letter-spacing: 0.03em;
}
.assertions-table td {
  padding: 0.4rem 0.6rem;
  border-top: 1px solid var(--border);
}
.assertions-table tr.pass td { border-left: 3px solid var(--pass); }
.assertions-table tr.fail td { border-left: 3px solid var(--fail); }
.assert-badge {
  display: inline-block;
  padding: 0.1rem 0.4rem;
  border-radius: 3px;
  font-weight: 700;
  font-size: 0.65rem;
  text-transform: uppercase;
}
.assert-badge.pass { background: var(--pass); color: #000; }
.assert-badge.fail { background: var(--fail); color: #fff; }
.footer {
  margin-top: 2rem;
  padding-top: 1rem;
  border-top: 1px solid var(--border);
  font-size: 0.75rem;
  color: var(--text-dim);
  text-align: center;
}
</style>
</head>
<body>

<div class=\"header\">
  <div>
    <h1>";

/// The end of the footer, the script that opens failed steps when clicked
/// or at load, and the end of the page.
pub const PAGE_END: &'static str = "
</div>

<script>
document.querySelectorAll('.step-header').forEach(h => {
  h.addEventListener('click', () => {
    h.closest('.step').classList.toggle('open');
  });
});
// Auto-open failed steps
document.querySelectorAll('.step').forEach(s => {
  if (s.querySelector('.step-status.fail') || s.querySelector('.step-status.error')) {
    s.classList.add('open');
  }
});
</script>
</body>
</html>";

/// The line that names the test specification, when there is one.
pub open spec fn spec_test_spec_line(t: Option<String>) -> Seq<char> {
    match t {
        Some(s) => "<br>Test Spec: "@ + spec_html_escape(s@),
        None => Seq::empty(),
    }
}

/// The counters of passed and failed assertions, shown only when the run
/// has assertions.
pub open spec fn spec_assertion_card(s: ReportSummary) -> Seq<char> {
    if s.assertions_total > 0 {
        "<div class=\"stat-card pass\">\n    <div class=\"value\">"@ + spec_decimal(s.assertions_passed as nat) + "</div>\n    <div class=\"label\">Assertions Passed</div>\n  </div>\n  <div class=\"stat-card fail\">\n    <div class=\"value\">"@ + spec_decimal(
            s.assertions_failed as nat,
        ) + "</div>\n    <div class=\"label\">Assertions Failed</div>\n  </div>"@
    } else {
        Seq::empty()
    }
}

/// A whole number of seconds as the page shows it: with one decimal, as
/// `{:.1}` formats it.
pub open spec fn spec_seconds_text(n: int) -> Seq<char> {
    if n < 0 {
        seq!['-'] + spec_decimal((-n) as nat) + ".0"@
    } else {
        spec_decimal(n as nat) + ".0"@
    }
}

/// The header of the page: title, name, blueprint, test specification,
/// report id (its first eight bytes), time and duration, and the verdict.
pub open spec fn spec_page_header(m: ReportMetadata, s: ReportSummary, timestamp: Seq<char>) -> Seq<char> {
    PAGE_START@ + spec_html_escape(m.target_name@) + PAGE_STYLE@ + spec_html_escape(m.target_name@)
        + "</h1>\n    <div class=\"meta\">\n      Blueprint: "@ + spec_html_escape(m.blueprint_name@) + "\n      "@ + spec_test_spec_line(m.test_spec)
        + "\n      <br>Report ID: "@ + spec_truncate(m.report_id@, 8) + "\n      <br>"@ + timestamp + " &middot; "@
        + spec_seconds_text(m.duration_seconds as int) + "s\n    </div>\n  </div>\n  <span class=\"badge "@ + spec_result_class(s.result)
        + "\">"@ + spec_result_label(s.result)
}

/// The counters, the assertion card and the progress bar.
pub open spec fn spec_page_stats(m: ReportMetadata, s: ReportSummary, pass_pct: nat) -> Seq<char> {
    "</span>\n</div>\n\n<div class=\"stats\">\n  <div class=\"stat-card\">\n    <div class=\"value\">"@ + spec_decimal(s.total_steps as nat) + "</div>\n    <div class=\"label\">Total Steps</div>\n  </div>\n  <div class=\"stat-card pass\">\n    <div class=\"value\">"@ + spec_decimal(s.passed as nat)
        + "</div>\n    <div class=\"label\">Passed</div>\n  </div>\n  <div class=\"stat-card fail\">\n    <div class=\"value\">"@ + spec_decimal(s.failed as nat) + "</div>\n    <div class=\"label\">Failed</div>\n  </div>\n  <div class=\"stat-card\">\n    <div class=\"value\">"@ + spec_seconds_text(
        m.duration_seconds as int,
    ) + "s</div>\n    <div class=\"label\">Duration</div>\n  </div>\n  "@ + spec_assertion_card(s) + "\n</div>\n\n<div class=\"progress-bar\">\n  <div class=\"fill "@ + spec_result_class(s.result) + "\" style=\"width: "@
        + spec_decimal(pass_pct) + "%\"></div>\n</div>\n\n<h2>Step Timeline</h2>\n"@
}

/// The timeline, the footer and the end of the page.
pub open spec fn spec_page_tail(m: ReportMetadata, steps_html: Seq<char>, timestamp: Seq<char>) -> Seq<char> {
    steps_html + "\n\n<div class=\"footer\">\n  Generated by goose-webtest v"@ + m.agent_version@ + " &middot; "@ + timestamp + PAGE_END@
}

/// The whole page of a report, given the time it was made as shown, the
/// share of passed steps in percent and the markup of the steps.
pub open spec fn spec_page_html(r: TestReport, timestamp: Seq<char>, pass_pct: nat, steps_html: Seq<char>) -> Seq<char> {
    spec_page_header(r.metadata, r.summary, timestamp) + spec_page_stats(r.metadata, r.summary, pass_pct)
        + spec_page_tail(r.metadata, steps_html, timestamp)
}

proof fn lemma_card_literals()
    ensures
        "</span>\n</div>\n\n<div class=\"stats\">\n  <div class=\"stat-card\">\n    <div class=\"value\">"@
            == "</span>\n</div>\n\n<div class=\"stats\">\n  <div class=\"stat-card\">\n    "@ + "<div class=\"value\">"@,
        "</div>\n    <div class=\"label\">Total Steps</div>\n  </div>\n  <div class=\"stat-card pass\">\n    <div class=\"value\">"@
            == "</div>\n    <div class=\"label\">Total Steps</div>"@ + "\n  </div>\n  <div class=\"stat-card pass\">\n    "@
            + "<div class=\"value\">"@,
        "</div>\n    <div class=\"label\">Passed</div>\n  </div>\n  <div class=\"stat-card fail\">\n    <div class=\"value\">"@
            == "</div>\n    <div class=\"label\">Passed</div>"@ + "\n  </div>\n  <div class=\"stat-card fail\">\n    "@
            + "<div class=\"value\">"@,
        "</div>\n    <div class=\"label\">Failed</div>\n  </div>\n  <div class=\"stat-card\">\n    <div class=\"value\">"@
            == "</div>\n    <div class=\"label\">Failed</div>"@ + "\n  </div>\n  <div class=\"stat-card\">\n    "@
            + "<div class=\"value\">"@,
{
    reveal_strlit("<div class=\"value\">");
    reveal_strlit("</span>\n</div>\n\n<div class=\"stats\">\n  <div class=\"stat-card\">\n    <div class=\"value\">");
    reveal_strlit("</span>\n</div>\n\n<div class=\"stats\">\n  <div class=\"stat-card\">\n    ");
    assert("</span>\n</div>\n\n<div class=\"stats\">\n  <div class=\"stat-card\">\n    <div class=\"value\">"@
        =~= "</span>\n</div>\n\n<div class=\"stats\">\n  <div class=\"stat-card\">\n    "@ + "<div class=\"value\">"@);
    reveal_strlit("</div>\n    <div class=\"label\">Total Steps</div>\n  </div>\n  <div class=\"stat-card pass\">\n    <div class=\"value\">");
    reveal_strlit("</div>\n    <div class=\"label\">Total Steps</div>");
    reveal_strlit("\n  </div>\n  <div class=\"stat-card pass\">\n    ");
    assert("</div>\n    <div class=\"label\">Total Steps</div>\n  </div>\n  <div class=\"stat-card pass\">\n    <div class=\"value\">"@
        =~= "</div>\n    <div class=\"label\">Total Steps</div>"@ + "\n  </div>\n  <div class=\"stat-card pass\">\n    "@
        + "<div class=\"value\">"@);
    reveal_strlit("</div>\n    <div class=\"label\">Passed</div>\n  </div>\n  <div class=\"stat-card fail\">\n    <div class=\"value\">");
    reveal_strlit("</div>\n    <div class=\"label\">Passed</div>");
    reveal_strlit("\n  </div>\n  <div class=\"stat-card fail\">\n    ");
    assert("</div>\n    <div class=\"label\">Passed</div>\n  </div>\n  <div class=\"stat-card fail\">\n    <div class=\"value\">"@
        =~= "</div>\n    <div class=\"label\">Passed</div>"@ + "\n  </div>\n  <div class=\"stat-card fail\">\n    "@
        + "<div class=\"value\">"@);
    reveal_strlit("</div>\n    <div class=\"label\">Failed</div>\n  </div>\n  <div class=\"stat-card\">\n    <div class=\"value\">");
    reveal_strlit("</div>\n    <div class=\"label\">Failed</div>");
    reveal_strlit("\n  </div>\n  <div class=\"stat-card\">\n    ");
    assert("</div>\n    <div class=\"label\">Failed</div>\n  </div>\n  <div class=\"stat-card\">\n    <div class=\"value\">"@
        =~= "</div>\n    <div class=\"label\">Failed</div>"@ + "\n  </div>\n  <div class=\"stat-card\">\n    "@
        + "<div class=\"value\">"@);
}

proof fn lemma_stats_start(m: ReportMetadata, s: ReportSummary, pass_pct: nat)
    ensures
        ({
            let pre = "</span>\n</div>\n\n<div class=\"stats\">\n  <div class=\"stat-card\">\n    <div class=\"value\">"@
                + spec_decimal(s.total_steps as nat)
                + "</div>\n    <div class=\"label\">Total Steps</div>\n  </div>\n  <div class=\"stat-card pass\">\n    <div class=\"value\">"@
                + spec_decimal(s.passed as nat)
                + "</div>\n    <div class=\"label\">Passed</div>\n  </div>\n  <div class=\"stat-card fail\">\n    <div class=\"value\">"@
                + spec_decimal(s.failed as nat)
                + "</div>\n    <div class=\"label\">Failed</div>\n  </div>\n  <div class=\"stat-card\">\n    <div class=\"value\">"@;
            spec_page_stats(m, s, pass_pct) == pre + spec_page_stats(m, s, pass_pct).skip(pre.len() as int)
        }),
{
    let pre = "</span>\n</div>\n\n<div class=\"stats\">\n  <div class=\"stat-card\">\n    <div class=\"value\">"@
        + spec_decimal(s.total_steps as nat)
        + "</div>\n    <div class=\"label\">Total Steps</div>\n  </div>\n  <div class=\"stat-card pass\">\n    <div class=\"value\">"@
        + spec_decimal(s.passed as nat)
        + "</div>\n    <div class=\"label\">Passed</div>\n  </div>\n  <div class=\"stat-card fail\">\n    <div class=\"value\">"@
        + spec_decimal(s.failed as nat)
        + "</div>\n    <div class=\"label\">Failed</div>\n  </div>\n  <div class=\"stat-card\">\n    <div class=\"value\">"@;
    assert(spec_page_stats(m, s, pass_pct) =~= pre + spec_page_stats(m, s, pass_pct).skip(pre.len() as int));
}

proof fn lemma_cards_in(
    h: Seq<char>,
    l1a: Seq<char>,
    v: Seq<char>,
    dt: Seq<char>,
    lt: Seq<char>,
    m2: Seq<char>,
    dp: Seq<char>,
    lp: Seq<char>,
    m3: Seq<char>,
    df: Seq<char>,
    lf: Seq<char>,
    m4: Seq<char>,
    y: Seq<char>,
)
    ensures
        ({
            let page = h + ((l1a + v) + dt + (lt + m2 + v) + dp + (lp + m3 + v) + df + (lf + m4 + v) + y);
            &&& spec_contains(page, v + dt + lt)
            &&& spec_contains(page, v + dp + lp)
            &&& spec_contains(page, v + df + lf)
        }),
{
    let page = h + ((l1a + v) + dt + (lt + m2 + v) + dp + (lp + m3 + v) + df + (lf + m4 + v) + y);
    let tt = v + dt + lt;
    let tp = v + dp + lp;
    let tf = v + df + lf;
    assert(page =~= (h + l1a) + tt + (m2 + tp + m3 + tf + m4 + v + y));
    assert(page =~= (h + l1a + tt + m2) + tp + (m3 + tf + m4 + v + y));
    assert(page =~= (h + l1a + tt + m2 + tp + m3) + tf + (m4 + v + y));
    lemma_contains_middle(h + l1a, tt, m2 + tp + m3 + tf + m4 + v + y);
    lemma_contains_middle(h + l1a + tt + m2, tp, m3 + tf + m4 + v + y);
    lemma_contains_middle(h + l1a + tt + m2 + tp + m3, tf, m4 + v + y);
}

/// The page shows the summary's counts on their cards: the number of steps
/// over the label "Total Steps", the passed steps over "Passed" and the
/// failed steps over "Failed".
pub proof fn law_page_shows_counts(r: TestReport, timestamp: Seq<char>, pass_pct: nat, steps_html: Seq<char>)
    ensures
        spec_contains(
            spec_page_html(r, timestamp, pass_pct, steps_html),
            "<div class=\"value\">"@ + spec_decimal(r.summary.total_steps as nat)
                + "</div>\n    <div class=\"label\">Total Steps</div>"@,
        ),
        spec_contains(
            spec_page_html(r, timestamp, pass_pct, steps_html),
            "<div class=\"value\">"@ + spec_decimal(r.summary.passed as nat) + "</div>\n    <div class=\"label\">Passed</div>"@,
        ),
        spec_contains(
            spec_page_html(r, timestamp, pass_pct, steps_html),
            "<div class=\"value\">"@ + spec_decimal(r.summary.failed as nat) + "</div>\n    <div class=\"label\">Failed</div>"@,
        ),
{
    let m = r.metadata;
    let sm = r.summary;
    lemma_card_literals();
    lemma_stats_start(m, sm, pass_pct);
    let stats = spec_page_stats(m, sm, pass_pct);
    let h = spec_page_header(m, sm, timestamp);
    let t = spec_page_tail(m, steps_html, timestamp);
    let pre = "</span>\n</div>\n\n<div class=\"stats\">\n  <div class=\"stat-card\">\n    <div class=\"value\">"@
        + spec_decimal(sm.total_steps as nat)
        + "</div>\n    <div class=\"label\">Total Steps</div>\n  </div>\n  <div class=\"stat-card pass\">\n    <div class=\"value\">"@
        + spec_decimal(sm.passed as nat)
        + "</div>\n    <div class=\"label\">Passed</div>\n  </div>\n  <div class=\"stat-card fail\">\n    <div class=\"value\">"@
        + spec_decimal(sm.failed as nat)
        + "</div>\n    <div class=\"label\">Failed</div>\n  </div>\n  <div class=\"stat-card\">\n    <div class=\"value\">"@;
    let rest = stats.skip(pre.len() as int);
    let y = rest + t;
    let page = spec_page_html(r, timestamp, pass_pct, steps_html);
    assert(page =~= h + (pre + y));
    lemma_cards_in(
        h,
        "</span>\n</div>\n\n<div class=\"stats\">\n  <div class=\"stat-card\">\n    "@,
        "<div class=\"value\">"@,
        spec_decimal(sm.total_steps as nat),
        "</div>\n    <div class=\"label\">Total Steps</div>"@,
        "\n  </div>\n  <div class=\"stat-card pass\">\n    "@,
        spec_decimal(sm.passed as nat),
        "</div>\n    <div class=\"label\">Passed</div>"@,
        "\n  </div>\n  <div class=\"stat-card fail\">\n    "@,
        spec_decimal(sm.failed as nat),
        "</div>\n    <div class=\"label\">Failed</div>"@,
        "\n  </div>\n  <div class=\"stat-card\">\n    "@,
        y,
    );
}

/// Whether the page can show the report id: the id is cut at eight bytes,
/// and the cut panics when the id is shorter or the cut falls inside a
/// character.
pub open spec fn report_id_ok(m: ReportMetadata) -> bool {
    &&& vstd::utf8::encode_utf8(m.report_id@).len() >= 8
    &&& cut_ok(m.report_id@, 8)
}

/// Whether a duration can be shown exactly: the float that holds it
/// represents every whole number up to 2^53.
pub open spec fn duration_ok(m: ReportMetadata) -> bool {
    -0x20000000000000 <= m.duration_seconds <= 0x20000000000000
}

/// Appends a whole number of seconds with one decimal.
pub(crate) fn push_seconds(out: &mut Vec<char>, n: i64)
    requires
        -0x20000000000000 <= n <= 0x20000000000000,
    ensures
        final(out)@ == old(out)@ + spec_seconds_text(n as int),
{
    if n < 0 {
        out.push('-');
        let d = decimal((-n) as u64);
        extend_chars(out, d.as_slice());
    } else {
        let d = decimal(n as u64);
        extend_chars(out, d.as_slice());
    }
    extend_str(out, ".0");
}

fn push_test_spec_line(out: &mut Vec<char>, t: &Option<String>)
    ensures
        final(out)@ == old(out)@ + spec_test_spec_line(*t),
{
    match t {
        Some(s) => {
            extend_str(out, "<br>Test Spec: ");
            let e = html_escape(s.as_str());
            extend_str(out, e.as_str());
        },
        None => {},
    }
}

fn push_assertion_card(out: &mut Vec<char>, s: &ReportSummary)
    ensures
        final(out)@ == old(out)@ + spec_assertion_card(*s),
{
    if s.assertions_total > 0 {
        extend_str(out, "<div class=\"stat-card pass\">\n    <div class=\"value\">");
        let a = decimal(s.assertions_passed as u64);
        extend_chars(out, a.as_slice());
        extend_str(out, "</div>\n    <div class=\"label\">Assertions Passed</div>\n  </div>\n  <div class=\"stat-card fail\">\n    <div class=\"value\">");
        let b = decimal(s.assertions_failed as u64);
        extend_chars(out, b.as_slice());
        extend_str(out, "</div>\n    <div class=\"label\">Assertions Failed</div>\n  </div>");
    }
}

#[verifier::spinoff_prover]
#[verifier::rlimit(30)]
fn push_page_header(out: &mut Vec<char>, m: &ReportMetadata, s: &ReportSummary, timestamp: &str)
    requires
        report_id_ok(*m),
        duration_ok(*m),
    ensures
        final(out)@ == old(out)@ + spec_page_header(*m, *s, timestamp@),
{
    let ghost start = out@;
    extend_str(out, PAGE_START);
    let name = html_escape(m.target_name.as_str());
    extend_str(out, name.as_str());
    extend_str(out, PAGE_STYLE);
    extend_str(out, name.as_str());
    extend_str(out, "</h1>\n    <div class=\"meta\">\n      Blueprint: ");
    let bp = html_escape(m.blueprint_name.as_str());
    extend_str(out, bp.as_str());
    extend_str(out, "\n      ");
    push_test_spec_line(out, &m.test_spec);
    extend_str(out, "\n      <br>Report ID: ");
    extend_str(out, truncate(m.report_id.as_str(), 8));
    extend_str(out, "\n      <br>");
    extend_str(out, timestamp);
    extend_str(out, " &middot; ");
    push_seconds(out, m.duration_seconds);
    extend_str(out, "s\n    </div>\n  </div>\n  <span class=\"badge ");
    extend_str(out, result_class(s.result));
    extend_str(out, "\">");
    extend_str(out, result_label(s.result));
    assert(out@ =~= start + spec_page_header(*m, *s, timestamp@));
}

fn push_page_stats(out: &mut Vec<char>, m: &ReportMetadata, s: &ReportSummary, pass_pct: u32)
    requires
        duration_ok(*m),
    ensures
        final(out)@ == old(out)@ + spec_page_stats(*m, *s, pass_pct as nat),
{
    let ghost start = out@;
    extend_str(out, "</span>\n</div>\n\n<div class=\"stats\">\n  <div class=\"stat-card\">\n    <div class=\"value\">");
    let a = decimal(s.total_steps as u64);
    extend_chars(out, a.as_slice());
    extend_str(out, "</div>\n    <div class=\"label\">Total Steps</div>\n  </div>\n  <div class=\"stat-card pass\">\n    <div class=\"value\">");
    let b = decimal(s.passed as u64);
    extend_chars(out, b.as_slice());
    extend_str(out, "</div>\n    <div class=\"label\">Passed</div>\n  </div>\n  <div class=\"stat-card fail\">\n    <div class=\"value\">");
    let c = decimal(s.failed as u64);
    extend_chars(out, c.as_slice());
    extend_str(out, "</div>\n    <div class=\"label\">Failed</div>\n  </div>\n  <div class=\"stat-card\">\n    <div class=\"value\">");
    push_seconds(out, m.duration_seconds);
    extend_str(out, "s</div>\n    <div class=\"label\">Duration</div>\n  </div>\n  ");
    push_assertion_card(out, s);
    extend_str(out, "\n</div>\n\n<div class=\"progress-bar\">\n  <div class=\"fill ");
    extend_str(out, result_class(s.result));
    extend_str(out, "\" style=\"width: ");
    let d = decimal(pass_pct as u64);
    extend_chars(out, d.as_slice());
    extend_str(out, "%\"></div>\n</div>\n\n<h2>Step Timeline</h2>\n");
    assert(out@ =~= start + spec_page_stats(*m, *s, pass_pct as nat));
}

/// Renders the page of a report. `timestamp` is the time the report was
/// made as the page shows it, `pass_pct` the share of passed steps in
/// percent and `steps_html` the markup of the steps, in order.
#[verifier::spinoff_prover]
#[verifier::rlimit(40)]
pub fn page_html(r: &TestReport, timestamp: &str, pass_pct: u32, steps_html: &str) -> (h: String)
    requires
        report_id_ok(r.metadata),
        duration_ok(r.metadata),
    ensures
        h@ == spec_page_html(*r, timestamp@, pass_pct as nat, steps_html@),
{
    let mut out: Vec<char> = Vec::new();
    push_page_header(&mut out, &r.metadata, &r.summary, timestamp);
    push_page_stats(&mut out, &r.metadata, &r.summary, pass_pct);
    extend_str(&mut out, steps_html);
    extend_str(&mut out, "\n\n<div class=\"footer\">\n  Generated by goose-webtest v");
    extend_str(&mut out, r.metadata.agent_version.as_str());
    extend_str(&mut out, " &middot; ");
    extend_str(&mut out, timestamp);
    extend_str(&mut out, PAGE_END);
    assert(out@ =~= spec_page_html(*r, timestamp@, pass_pct as nat, steps_html@));
    string_from_chars(out.as_slice())
}

/// How the report page shows a time given in milliseconds since the Unix
/// epoch (`%Y-%m-%d %H:%M:%S UTC`), or `None` where chrono has no such time.
pub uninterp spec fn utc_text(millis: int) -> Option<Seq<char>>;

/// Whether chrono has a UTC time for these milliseconds since the epoch:
/// from `DateTime::<Utc>::MIN_UTC` (January 1 of the year -262143) to
/// `DateTime::<Utc>::MAX_UTC` (the last millisecond of the year 262142).
pub open spec fn utc_in_range(millis: int) -> bool {
    -8_334_601_228_800_000 <= millis <= 8_210_266_876_799_999
}

/// `chrono::DateTime::from_timestamp_millis(millis)`, formatted with
/// `format("%Y-%m-%d %H:%M:%S UTC")`: a time exactly for the milliseconds
/// within chrono's range of dates; its text depends on `millis` alone, the
/// zone being UTC.
#[verifier::external_body]
fn utc_timestamp(millis: i64) -> (r: Option<String>)
    ensures
        r is Some <==> utc_in_range(millis as int),
        match r {
            Some(t) => utc_text(millis as int) == Some(t@),
            None => utc_text(millis as int) is None,
        },
{
    match chrono::DateTime::from_timestamp_millis(millis) {
        Some(t) => Some(t.format("%Y-%m-%d %H:%M:%S UTC").to_string()),
        None => None,
    }
}

/// Renders the page of a report, showing the time the report was made in
/// UTC; `None` when that time lies outside the calendar chrono knows.
pub fn render_page(r: &TestReport, pass_pct: u32, steps_html: &str) -> (h: Option<String>)
    requires
        report_id_ok(r.metadata),
        duration_ok(r.metadata),
    ensures
        h is Some <==> utc_in_range(r.metadata.timestamp_millis as int),
        match h {
            Some(p) => utc_text(r.metadata.timestamp_millis as int) matches Some(t) && p@
                == spec_page_html(*r, t, pass_pct as nat, steps_html@),
            None => utc_text(r.metadata.timestamp_millis as int) is None,
        },
{
    match utc_timestamp(r.metadata.timestamp_millis) {
        Some(t) => Some(page_html(r, t.as_str(), pass_pct, steps_html)),
        None => None,
    }
}

} // verus!
