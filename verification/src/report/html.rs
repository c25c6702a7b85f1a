//! The parts of the HTML report that are text: escaping, cutting long texts,
//! the labels of outcomes, and the markup of a step and its assertion table.

use vstd::prelude::*;

use super::OverallResult;
use crate::assertions::{Assertion, AssertionType};
use crate::blueprint::nodes::{NodeResult, NodeStatus, NodeType};
use crate::steps::agentic::{cut_ok, spec_truncate, truncate};
use crate::text::{
    chars_of, decimal, extend_chars, extend_str, join, spec_decimal, spec_join, spec_padded,
    spec_starts_with, string_from_chars,
};
use base64::engine::general_purpose::STANDARD;
use base64::Engine;

verus! {

/// The markup a character stands for in HTML text: `&`, `<`, `>` and `"`
/// become entities, everything else stays.
pub open spec fn escape_char(c: char) -> Seq<char> {
    if c == '&' {
        "&amp;"@
    } else if c == '<' {
        "&lt;"@
    } else if c == '>' {
        "&gt;"@
    } else if c == '"' {
        "&quot;"@
    } else {
        seq![c]
    }
}

/// `s` with every special character escaped.
pub open spec fn spec_html_escape(s: Seq<char>) -> Seq<char>
    decreases s.len(),
{
    if s.len() == 0 {
        Seq::empty()
    } else {
        spec_html_escape(s.drop_last()) + escape_char(s.last())
    }
}

/// Escapes `&`, `<`, `>` and `"` for HTML.
pub fn html_escape(s: &str) -> (r: String)
    ensures
        r@ == spec_html_escape(s@),
{
    let c = chars_of(s);
    let mut out: Vec<char> = Vec::new();
    let mut i: usize = 0;
    assert(c@.take(0) =~= Seq::<char>::empty());
    while i < c.len()
        invariant
            i <= c@.len(),
            out@ == spec_html_escape(c@.take(i as int)),
        decreases c@.len() - i,
    {
        let x = c[i];
        proof {
            reveal_strlit("&amp;");
            reveal_strlit("&lt;");
            reveal_strlit("&gt;");
            reveal_strlit("&quot;");
        }
        if x == '&' {
            extend_str(&mut out, "&amp;");
        } else if x == '<' {
            extend_str(&mut out, "&lt;");
        } else if x == '>' {
            extend_str(&mut out, "&gt;");
        } else if x == '"' {
            extend_str(&mut out, "&quot;");
        } else {
            out.push(x);
        }
        assert(c@.take(i + 1).drop_last() =~= c@.take(i as int));
        i += 1;
    }
    assert(c@.take(c@.len() as int) =~= c@);
    string_from_chars(out.as_slice())
}

/// Escaped text holds no raw markup: no `<`, `>` or `"` is left, and text
/// without special characters is unchanged.
pub proof fn law_escape_leaves_no_markup(s: Seq<char>)
    ensures
        forall|i: int|
            0 <= i < spec_html_escape(s).len() ==> spec_html_escape(s)[i] != '<' && spec_html_escape(
                s,
            )[i] != '>' && spec_html_escape(s)[i] != '"',
        (forall|i: int| 0 <= i < s.len() ==> s[i] != '&' && s[i] != '<' && s[i] != '>' && s[i] != '"')
            ==> spec_html_escape(s) == s,
    decreases s.len(),
{
    reveal_strlit("&amp;");
    reveal_strlit("&lt;");
    reveal_strlit("&gt;");
    reveal_strlit("&quot;");
    if s.len() > 0 {
        law_escape_leaves_no_markup(s.drop_last());
        let p = spec_html_escape(s.drop_last());
        let e = escape_char(s.last());
        assert forall|i: int| 0 <= i < (p + e).len() implies (p + e)[i] != '<' && (p + e)[i] != '>'
            && (p + e)[i] != '"' by {
            if i >= p.len() {
                assert((p + e)[i] == e[i - p.len()]);
            }
        }
        if forall|i: int| 0 <= i < s.len() ==> s[i] != '&' && s[i] != '<' && s[i] != '>' && s[i] != '"' {
            assert(forall|i: int| 0 <= i < s.drop_last().len() ==> s.drop_last()[i] == s[i]);
            assert(s.last() == s[s.len() - 1]);
            assert(s.drop_last() + seq![s.last()] =~= s);
        }
    }
}

/// `s` cut to `max` bytes with a marker, or `s` itself when it is short enough.
pub open spec fn spec_truncate_str(s: Seq<char>, max: nat) -> Seq<char> {
    if vstd::utf8::encode_utf8(s).len() <= max {
        s
    } else {
        spec_truncate(s, max) + "... [truncated]"@
    }
}

/// Cuts a long text to `max` bytes and marks the cut. Cutting inside a
/// character panics, so the cut must fall on a character boundary.
pub fn truncate_str(s: &str, max: usize) -> (r: String)
    requires
        cut_ok(s@, max as nat),
    ensures
        r@ == spec_truncate_str(s@, max as nat),
{
    if s.len() <= max {
        String::from_str(s)
    } else {
        let mut out: Vec<char> = Vec::new();
        extend_str(&mut out, truncate(s, max));
        extend_str(&mut out, "... [truncated]");
        string_from_chars(out.as_slice())
    }
}

/// The CSS class of a step outcome.
pub open spec fn spec_status_class(st: NodeStatus) -> Seq<char> {
    match st {
        NodeStatus::Pass => "pass"@,
        NodeStatus::Fail => "fail"@,
        NodeStatus::Skip => "skip"@,
        NodeStatus::Error => "error"@,
    }
}

/// The CSS class of a step outcome.
pub fn status_class(st: NodeStatus) -> (r: &'static str)
    ensures
        r@ == spec_status_class(st),
{
    match st {
        NodeStatus::Pass => "pass",
        NodeStatus::Fail => "fail",
        NodeStatus::Skip => "skip",
        NodeStatus::Error => "error",
    }
}

/// The CSS class of a verdict.
pub open spec fn spec_result_class(r: OverallResult) -> Seq<char> {
    match r {
        OverallResult::Pass => "pass"@,
        OverallResult::Fail => "fail"@,
        OverallResult::Partial => "partial"@,
        OverallResult::Error => "error"@,
    }
}

/// The CSS class of a verdict.
pub fn result_class(r: OverallResult) -> (s: &'static str)
    ensures
        s@ == spec_result_class(r),
{
    match r {
        OverallResult::Pass => "pass",
        OverallResult::Fail => "fail",
        OverallResult::Partial => "partial",
        OverallResult::Error => "error",
    }
}

/// The badge text of a verdict.
pub open spec fn spec_result_label(r: OverallResult) -> Seq<char> {
    match r {
        OverallResult::Pass => "PASS"@,
        OverallResult::Fail => "FAIL"@,
        OverallResult::Partial => "PARTIAL"@,
        OverallResult::Error => "ERROR"@,
    }
}

/// The badge text of a verdict.
pub fn result_label(r: OverallResult) -> (s: &'static str)
    ensures
        s@ == spec_result_label(r),
{
    match r {
        OverallResult::Pass => "PASS",
        OverallResult::Fail => "FAIL",
        OverallResult::Partial => "PARTIAL",
        OverallResult::Error => "ERROR",
    }
}

/// The name of a node kind, as the report shows it.
pub open spec fn spec_node_type_name(t: NodeType) -> Seq<char> {
    match t {
        NodeType::Deterministic => "Deterministic"@,
        NodeType::Agentic => "Agentic"@,
    }
}

/// The name of a node kind, as the report shows it.
pub fn node_type_name(t: NodeType) -> (s: &'static str)
    ensures
        s@ == spec_node_type_name(t),
{
    match t {
        NodeType::Deterministic => "Deterministic",
        NodeType::Agentic => "Agentic",
    }
}

/// The name of an assertion kind, as the report shows it.
pub open spec fn spec_assertion_type_name(t: AssertionType) -> Seq<char> {
    match t {
        AssertionType::Visible => "Visible"@,
        AssertionType::TextContains => "TextContains"@,
        AssertionType::ElementExists => "ElementExists"@,
        AssertionType::UrlMatches => "UrlMatches"@,
        AssertionType::Custom => "Custom"@,
    }
}

/// The name of an assertion kind, as the report shows it.
pub fn assertion_type_name(t: AssertionType) -> (s: &'static str)
    ensures
        s@ == spec_assertion_type_name(t),
{
    match t {
        AssertionType::Visible => "Visible",
        AssertionType::TextContains => "TextContains",
        AssertionType::ElementExists => "ElementExists",
        AssertionType::UrlMatches => "UrlMatches",
        AssertionType::Custom => "Custom",
    }
}

/// The row of an assertion in a step's assertion table.
pub open spec fn assertion_row(a: Assertion) -> Seq<char> {
    let cls: Seq<char> = if a.passed {
        "pass"@
    } else {
        "fail"@
    };
    let label: Seq<char> = if a.passed {
        "PASS"@
    } else {
        "FAIL"@
    };
    "<tr class=\""@ + cls + "\"><td><span class=\"assert-badge "@ + cls + "\">"@ + label
        + "</span></td><td>"@ + spec_assertion_type_name(a.assertion_type) + "</td><td>"@
        + spec_html_escape(a.target@) + "</td><td>"@ + spec_html_escape(a.expected@)
        + "</td><td>"@ + spec_html_escape(a.actual@) + "</td></tr>\n"@
}

/// The rows of assertions, in order.
pub open spec fn assertion_rows(xs: Seq<Assertion>) -> Seq<char>
    decreases xs.len(),
{
    if xs.len() == 0 {
        Seq::empty()
    } else {
        assertion_rows(xs.drop_last()) + assertion_row(xs.last())
    }
}

/// The header row of an assertion table.
pub open spec fn table_head() -> Seq<char> {
    "<table class=\"assertions-table\">\n<tr><th>Status</th><th>Type</th><th>Target</th><th>Expected</th><th>Actual</th></tr>\n"@
}

/// The assertion table of a step: empty without assertions.
pub open spec fn spec_assertion_table(xs: Seq<Assertion>) -> Seq<char> {
    if xs.len() == 0 {
        Seq::empty()
    } else {
        table_head() + assertion_rows(xs) + "</table>"@
    }
}

/// Appends the row of one assertion.
fn push_assertion_row(out: &mut Vec<char>, a: &Assertion)
    ensures
        final(out)@ == old(out)@ + assertion_row(*a),
{
    let cls = if a.passed { "pass" } else { "fail" };
    let label = if a.passed { "PASS" } else { "FAIL" };
    extend_str(out, "<tr class=\"");
    extend_str(out, cls);
    extend_str(out, "\"><td><span class=\"assert-badge ");
    extend_str(out, cls);
    extend_str(out, "\">");
    extend_str(out, label);
    extend_str(out, "</span></td><td>");
    extend_str(out, assertion_type_name(a.assertion_type));
    extend_str(out, "</td><td>");
    let t = html_escape(a.target.as_str());
    extend_str(out, t.as_str());
    extend_str(out, "</td><td>");
    let e = html_escape(a.expected.as_str());
    extend_str(out, e.as_str());
    extend_str(out, "</td><td>");
    let x = html_escape(a.actual.as_str());
    extend_str(out, x.as_str());
    extend_str(out, "</td></tr>\n");
}

/// The assertion table of a step.
pub fn assertion_table(xs: &Vec<Assertion>) -> (r: String)
    ensures
        r@ == spec_assertion_table(xs@),
{
    let mut out: Vec<char> = Vec::new();
    if xs.len() == 0 {
        return String::new();
    }
    extend_str(
        &mut out,
        "<table class=\"assertions-table\">\n<tr><th>Status</th><th>Type</th><th>Target</th><th>Expected</th><th>Actual</th></tr>\n",
    );
    let ghost head = out@;
    let mut i: usize = 0;
    assert(xs@.take(0) =~= Seq::<Assertion>::empty());
    while i < xs.len()
        invariant
            i <= xs@.len(),
            out@ == head + assertion_rows(xs@.take(i as int)),
        decreases xs@.len() - i,
    {
        push_assertion_row(&mut out, &xs[i]);
        assert(xs@.take(i + 1).drop_last() =~= xs@.take(i as int));
        i += 1;
    }
    assert(xs@.take(xs@.len() as int) =~= xs@);
    extend_str(&mut out, "</table>");
    string_from_chars(out.as_slice())
}

/// What `base64`'s standard engine makes of `data`: the padded encoding in
/// the standard alphabet.
pub uninterp spec fn base64_standard(data: Seq<u8>) -> Seq<char>;

/// `base64::engine::general_purpose::STANDARD.encode`: the result is the
/// padded standard-alphabet encoding of `data`, four characters for every
/// started group of three bytes. The crate panics when that length does not
/// fit in `usize`.
#[verifier::external_body]
fn encode_base64(data: &[u8]) -> (r: String)
    requires
        (data@.len() + 2) / 3 * 4 <= usize::MAX,
    ensures
        r@ == base64_standard(data@),
        r@.len() == (data@.len() + 2) / 3 * 4,
{
    STANDARD.encode(data)
}

/// The block that shows a PNG screenshot inline, with its file name as
/// caption.
pub open spec fn spec_screenshot_html(data: Seq<u8>, filename: Seq<char>) -> Seq<char> {
    spec_screenshot_markup(base64_standard(data), filename)
}

/// The block that shows a PNG screenshot inline, given its data in base64.
pub open spec fn spec_screenshot_markup(b64: Seq<char>, filename: Seq<char>) -> Seq<char> {
    "<div class=\"screenshot\">\n  <img src=\"data:image/png;base64,"@ + b64 + "\" alt=\""@
        + spec_html_escape(filename) + "\">\n  <div class=\"caption\">"@ + spec_html_escape(
        filename,
    ) + "</div>\n</div>"@
}

/// Embeds the bytes of a PNG screenshot as a base64 image with a caption.
pub fn screenshot_html(data: &[u8], filename: &str) -> (r: String)
    requires
        (data@.len() + 2) / 3 * 4 <= usize::MAX,
    ensures
        r@ == spec_screenshot_html(data@, filename@),
{
    let b64 = encode_base64(data);
    screenshot_markup(b64.as_str(), filename)
}

/// The block that shows a screenshot whose data is `b64`, in base64.
pub fn screenshot_markup(b64: &str, filename: &str) -> (r: String)
    ensures
        r@ == spec_screenshot_markup(b64@, filename@),
{
    let name = html_escape(filename);
    let mut out: Vec<char> = Vec::new();
    extend_str(&mut out, "<div class=\"screenshot\">\n  <img src=\"data:image/png;base64,");
    extend_str(&mut out, b64);
    extend_str(&mut out, "\" alt=\"");
    extend_str(&mut out, name.as_str());
    extend_str(&mut out, "\">\n  <div class=\"caption\">");
    extend_str(&mut out, name.as_str());
    extend_str(&mut out, "</div>\n</div>");
    string_from_chars(out.as_slice())
}

/// Whether a file of the report directory shows step `num` with node id
/// `node_id`: a PNG whose name starts with the step's two-digit number or
/// with the node id, each followed by `_`, and that is not among the step's
/// own screenshots already.
pub open spec fn spec_dir_screenshot_wanted(
    name: Seq<char>,
    path: Seq<char>,
    num: nat,
    node_id: Seq<char>,
    own: Seq<Seq<char>>,
) -> bool {
    &&& name.len() >= 4 && name.subrange(name.len() - 4, name.len() as int) == ".png"@
    &&& (spec_starts_with(name, spec_padded(num, 2).push('_')) || spec_starts_with(
        name,
        node_id.push('_'),
    ))
    &&& !own.contains(path)
}

/// Decides whether a PNG found in the report directory belongs to a step.
pub fn dir_screenshot_wanted(name: &str, path: &str, num: usize, step: &NodeResult) -> (b: bool)
    ensures
        b == spec_dir_screenshot_wanted(
            name@,
            path@,
            num as nat,
            step.node_id@,
            step.screenshots@.map_values(|p: String| p@),
        ),
{
    proof {
        reveal_strlit(".png");
    }
    let n = chars_of(name);
    let ext = chars_of(".png");
    if n.len() < 4 {
        return false;
    }
    let mut k: usize = 0;
    while k < 4
        invariant
            k <= 4,
            n@ == name@,
            n@.len() >= 4,
            ext@ == ".png"@,
            ext@.len() == 4,
            forall|j: int| 0 <= j < k ==> n@[n@.len() - 4 + j] == ext@[j],
        decreases 4 - k,
    {
        if n[n.len() - 4 + k] != ext[k] {
            assert(n@.subrange(n@.len() - 4, n@.len() as int)[k as int] == n@[n@.len() - 4 + k]);
            assert(n@.subrange(n@.len() - 4, n@.len() as int) != ".png"@);
            return false;
        }
        k += 1;
    }
    assert(n@.subrange(n@.len() - 4, n@.len() as int) =~= ".png"@);
    let mut p1 = crate::text::padded(num as u64, 2);
    p1.push('_');
    let mut p2 = chars_of(step.node_id.as_str());
    p2.push('_');
    if !crate::text::starts_with(n.as_slice(), p1.as_slice())
        && !crate::text::starts_with(n.as_slice(), p2.as_slice()) {
        return false;
    }
    let ghost own = step.screenshots@.map_values(|p: String| p@);
    let mut i: usize = 0;
    while i < step.screenshots.len()
        invariant
            i <= step.screenshots@.len(),
            own == step.screenshots@.map_values(|p: String| p@),
            forall|j: int| 0 <= j < i ==> own[j] != path@,
        decreases step.screenshots@.len() - i,
    {
        if crate::text::str_eq(step.screenshots[i].as_str(), path) {
            assert(own[i as int] == path@);
            return false;
        }
        i += 1;
    }
    assert(!own.contains(path@));
    true
}

/// A text block of a step, escaped and cut to 2000 bytes, between `open`
/// and `close`; nothing when the step has no such text.
pub open spec fn text_block(t: Option<String>, open: Seq<char>, close: Seq<char>) -> Seq<char> {
    match t {
        Some(d) => open + spec_html_escape(spec_truncate_str(d@, 2000)) + close,
        None => Seq::empty(),
    }
}

/// Whether a step's texts can be cut at 2000 bytes (the cut panics inside
/// a character).
pub open spec fn texts_cut_ok(step: NodeResult) -> bool {
    &&& (step.detail matches Some(d) ==> cut_ok(d@, 2000))
    &&& (step.error matches Some(e) ==> cut_ok(e@, 2000))
}

/// The expanded part of a step: its detail, its error, its assertion table
/// and its screenshots.
pub open spec fn spec_step_detail(step: NodeResult, images: Seq<Seq<char>>) -> Seq<char> {
    text_block(step.detail, "<pre>"@, "</pre>"@) + text_block(
        step.error,
        "<div class=\"error-msg\"><strong>Error:</strong><pre>"@,
        "</pre></div>"@,
    ) + spec_assertion_table(step.assertions@) + spec_join(images, Seq::empty())
}

fn push_text_block(out: &mut Vec<char>, t: &Option<String>, open: &str, close: &str)
    requires
        t matches Some(d) ==> cut_ok(d@, 2000),
    ensures
        final(out)@ == old(out)@ + text_block(*t, open@, close@),
{
    match t {
        Some(d) => {
            extend_str(out, open);
            let cut = truncate_str(d.as_str(), 2000);
            let esc = html_escape(cut.as_str());
            extend_str(out, esc.as_str());
            extend_str(out, close);
        },
        None => {},
    }
}

/// The expanded part of a step. `images` are the screenshot blocks, in the
/// order they are shown.
pub fn step_detail(step: &NodeResult, images: &Vec<String>) -> (r: String)
    requires
        texts_cut_ok(*step),
    ensures
        r@ == spec_step_detail(*step, images@.map_values(|p: String| p@)),
{
    let mut out: Vec<char> = Vec::new();
    push_text_block(&mut out, &step.detail, "<pre>", "</pre>");
    push_text_block(
        &mut out,
        &step.error,
        "<div class=\"error-msg\"><strong>Error:</strong><pre>",
        "</pre></div>",
    );
    let table = assertion_table(&step.assertions);
    extend_str(&mut out, table.as_str());
    let imgs = join(images, "");
    proof {
        reveal_strlit("");
        assert(""@ =~= Seq::<char>::empty());
    }
    extend_str(&mut out, imgs.as_str());
    string_from_chars(out.as_slice())
}

/// The markup of step `num` in the timeline, with its duration as shown and
/// its expanded part.
pub open spec fn spec_step_html(num: nat, step: NodeResult, duration: Seq<char>, detail: Seq<char>) -> Seq<char> {
    "<div class=\"step\">\n  <div class=\"step-header\">\n    <span class=\"step-num\">"@
        + spec_decimal(num) + "</span>\n    <span class=\"step-status "@
        + spec_status_class(step.status) + "\"></span>\n    <span class=\"step-name\">"@
        + spec_html_escape(step.node_name@) + "</span>\n    <span class=\"step-type\">"@
        + spec_node_type_name(step.node_type) + "</span>\n    <span class=\"step-duration\">"@
        + duration + "</span>\n  </div>\n  <div class=\"step-detail\">\n    "@ + detail
        + "\n  </div>\n</div>\n"@
}

/// Renders step `num` of the timeline.
pub fn step_html(num: usize, step: &NodeResult, duration: &str, detail: &str) -> (r: String)
    ensures
        r@ == spec_step_html(num as nat, *step, duration@, detail@),
{
    let mut out: Vec<char> = Vec::new();
    extend_str(&mut out, "<div class=\"step\">\n  <div class=\"step-header\">\n    <span class=\"step-num\">");
    let d = decimal(num as u64);
    extend_chars(&mut out, d.as_slice());
    extend_str(&mut out, "</span>\n    <span class=\"step-status ");
    extend_str(&mut out, status_class(step.status));
    extend_str(&mut out, "\"></span>\n    <span class=\"step-name\">");
    let name = html_escape(step.node_name.as_str());
    extend_str(&mut out, name.as_str());
    extend_str(&mut out, "</span>\n    <span class=\"step-type\">");
    extend_str(&mut out, node_type_name(step.node_type));
    extend_str(&mut out, "</span>\n    <span class=\"step-duration\">");
    extend_str(&mut out, duration);
    extend_str(&mut out, "</span>\n  </div>\n  <div class=\"step-detail\">\n    ");
    extend_str(&mut out, detail);
    extend_str(&mut out, "\n  </div>\n</div>\n");
    string_from_chars(out.as_slice())
}

} // verus!
