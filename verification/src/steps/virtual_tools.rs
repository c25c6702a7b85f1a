//! The assertion and logging tools an agent may call; they are answered by the
//! library, from a page snapshot, instead of by the browser.

use vstd::prelude::*;

use super::agentic::{lines_lowered, sanitize, spec_sanitize};
use crate::assertions::{status_label_of, Assertion, AssertionType};
use crate::text::{
    chars_of, contains, extend_chars, extend_str, lines, spec_contains, spec_lines,
    spec_to_lowercase, spec_to_uppercase, spec_trim, split_last, after_last, string_from_chars,
    to_lowercase, to_uppercase, trim, slice_from,
};

verus! {

/// Whether `name` is one of the tools the library answers itself.
pub open spec fn spec_is_virtual_tool(name: Seq<char>) -> bool {
    ||| name == "assert_visible"@
    ||| name == "assert_text_contains"@
    ||| name == "assert_url_matches"@
    ||| name == "assert_element_exists"@
    ||| name == "log_step"@
}

/// The names of the tools the library answers itself.
pub fn virtual_tool_names() -> (r: Vec<&'static str>)
    ensures
        r@.len() == 5,
        r@[0]@ == "assert_visible"@,
        r@[1]@ == "assert_text_contains"@,
        r@[2]@ == "assert_url_matches"@,
        r@[3]@ == "assert_element_exists"@,
        r@[4]@ == "log_step"@,
{
    let mut r = Vec::new();
    r.push("assert_visible");
    r.push("assert_text_contains");
    r.push("assert_url_matches");
    r.push("assert_element_exists");
    r.push("log_step");
    r
}


/// A parameter of a tool, as the tool's input schema describes it. Every
/// parameter takes a string.
#[derive(Debug, Clone)]
pub struct ToolParam {
    pub name: String,
    pub description: String,
    /// Whether the schema lists the parameter as required.
    pub required: bool,
    /// The values the parameter is restricted to; empty when it is free.
    pub choices: Vec<String>,
}

/// A tool the library answers itself, as the agent is told of it.
#[derive(Debug, Clone)]
pub struct VirtualToolSpec {
    pub name: String,
    pub description: String,
    pub params: Vec<ToolParam>,
}

/// Whether `p` is the parameter with these name, description, requiredness
/// and choices.
pub open spec fn param_is(
    p: ToolParam,
    name: Seq<char>,
    description: Seq<char>,
    required: bool,
    choices: Seq<Seq<char>>,
) -> bool {
    &&& p.name@ == name
    &&& p.description@ == description
    &&& p.required == required
    &&& p.choices@.map_values(|c: String| c@) == choices
}

fn param(name: &str, description: &str, required: bool, choices: Vec<String>) -> (p: ToolParam)
    ensures
        param_is(p, name@, description@, required, choices@.map_values(|c: String| c@)),
{
    ToolParam {
        name: String::from_str(name),
        description: String::from_str(description),
        required,
        choices,
    }
}

fn tool(name: &str, description: &str, params: Vec<ToolParam>) -> (t: VirtualToolSpec)
    ensures
        t.name@ == name@,
        t.description@ == description@,
        t.params@ == params@,
{
    VirtualToolSpec { name: String::from_str(name), description: String::from_str(description), params }
}

/// What the agent is told `assert_visible` does.
pub const ASSERT_VISIBLE_DESCRIPTION: &'static str = "Assert that specific text is visible on the current page. Takes a snapshot and checks if the text appears in the accessibility tree. Returns PASS or FAIL.";

/// What the agent is told `assert_text_contains` does.
pub const ASSERT_TEXT_CONTAINS_DESCRIPTION: &'static str = "Assert that a specific element contains expected text. Uses the accessibility snapshot to find the element.";

/// What the agent is told `assert_url_matches` does.
pub const ASSERT_URL_MATCHES_DESCRIPTION: &'static str = "Assert that the current page URL contains the expected pattern.";

/// What the agent is told `assert_element_exists` does.
pub const ASSERT_ELEMENT_EXISTS_DESCRIPTION: &'static str = "Assert that an element with specific characteristics exists in the accessibility snapshot.";

/// What the agent is told `log_step` does.
pub const LOG_STEP_DESCRIPTION: &'static str = "Log a test step or observation. Use this to record what you're doing and what you observe during testing.";

/// The tools the library answers itself, in the order the agent is told of
/// them, with their descriptions and parameters.
pub fn virtual_tool_specs() -> (r: Vec<VirtualToolSpec>)
    ensures
        r@.len() == 5,
        r@[0].name@ == "assert_visible"@,
        r@[0].description@ == ASSERT_VISIBLE_DESCRIPTION@,
        r@[0].params@.len() == 1,
        param_is(r@[0].params@[0], "text"@, "The text that should be visible on the page"@, true, Seq::<Seq<char>>::empty()),
        r@[1].name@ == "assert_text_contains"@,
        r@[1].description@ == ASSERT_TEXT_CONTAINS_DESCRIPTION@,
        r@[1].params@.len() == 2,
        param_is(r@[1].params@[0], "selector"@, "Description or ref of the element to check"@, true, Seq::<Seq<char>>::empty()),
        param_is(r@[1].params@[1], "expected"@, "The text that should be contained in the element"@, true, Seq::<Seq<char>>::empty()),
        r@[2].name@ == "assert_url_matches"@,
        r@[2].description@ == ASSERT_URL_MATCHES_DESCRIPTION@,
        r@[2].params@.len() == 1,
        param_is(r@[2].params@[0], "pattern"@, "URL substring or pattern that should be present in the current URL"@, true, Seq::<Seq<char>>::empty()),
        r@[3].name@ == "assert_element_exists"@,
        r@[3].description@ == ASSERT_ELEMENT_EXISTS_DESCRIPTION@,
        r@[3].params@.len() == 2,
        param_is(r@[3].params@[0], "description"@, "Description of the element to look for (e.g. 'button', 'link', 'textbox')"@, true, Seq::<Seq<char>>::empty()),
        param_is(r@[3].params@[1], "text"@, "Text associated with the element"@, false, Seq::<Seq<char>>::empty()),
        r@[4].name@ == "log_step"@,
        r@[4].description@ == LOG_STEP_DESCRIPTION@,
        r@[4].params@.len() == 2,
        param_is(r@[4].params@[0], "message"@, "Description of the test step or observation"@, true, Seq::<Seq<char>>::empty()),
        param_is(r@[4].params@[1], "status"@, "Status level (default: info)"@, false, seq!["info"@, "pass"@, "fail"@, "warning"@]),
{
    let mut r: Vec<VirtualToolSpec> = Vec::new();
    let mut ps: Vec<ToolParam> = Vec::new();
    let ch: Vec<String> = Vec::new();
    proof {
        assert(ch@.map_values(|c: String| c@) =~= Seq::<Seq<char>>::empty());
    }
    ps.push(param("text", "The text that should be visible on the page", true, ch));
    r.push(tool("assert_visible", ASSERT_VISIBLE_DESCRIPTION, ps));
    let mut ps: Vec<ToolParam> = Vec::new();
    let ch: Vec<String> = Vec::new();
    proof {
        assert(ch@.map_values(|c: String| c@) =~= Seq::<Seq<char>>::empty());
    }
    ps.push(param("selector", "Description or ref of the element to check", true, ch));
    let ch: Vec<String> = Vec::new();
    proof {
        assert(ch@.map_values(|c: String| c@) =~= Seq::<Seq<char>>::empty());
    }
    ps.push(param("expected", "The text that should be contained in the element", true, ch));
    r.push(tool("assert_text_contains", ASSERT_TEXT_CONTAINS_DESCRIPTION, ps));
    let mut ps: Vec<ToolParam> = Vec::new();
    let ch: Vec<String> = Vec::new();
    proof {
        assert(ch@.map_values(|c: String| c@) =~= Seq::<Seq<char>>::empty());
    }
    ps.push(param("pattern", "URL substring or pattern that should be present in the current URL", true, ch));
    r.push(tool("assert_url_matches", ASSERT_URL_MATCHES_DESCRIPTION, ps));
    let mut ps: Vec<ToolParam> = Vec::new();
    let ch: Vec<String> = Vec::new();
    proof {
        assert(ch@.map_values(|c: String| c@) =~= Seq::<Seq<char>>::empty());
    }
    ps.push(param("description", "Description of the element to look for (e.g. 'button', 'link', 'textbox')", true, ch));
    let ch: Vec<String> = Vec::new();
    proof {
        assert(ch@.map_values(|c: String| c@) =~= Seq::<Seq<char>>::empty());
    }
    ps.push(param("text", "Text associated with the element", false, ch));
    r.push(tool("assert_element_exists", ASSERT_ELEMENT_EXISTS_DESCRIPTION, ps));
    let mut ps: Vec<ToolParam> = Vec::new();
    let ch: Vec<String> = Vec::new();
    proof {
        assert(ch@.map_values(|c: String| c@) =~= Seq::<Seq<char>>::empty());
    }
    ps.push(param("message", "Description of the test step or observation", true, ch));
    let mut ch: Vec<String> = Vec::new();
    ch.push(String::from_str("info"));
    ch.push(String::from_str("pass"));
    ch.push(String::from_str("fail"));
    ch.push(String::from_str("warning"));
    proof {
        assert(ch@.map_values(|c: String| c@) =~= seq!["info"@, "pass"@, "fail"@, "warning"@]);
    }
    ps.push(param("status", "Status level (default: info)", false, ch));
    r.push(tool("log_step", LOG_STEP_DESCRIPTION, ps));
    r
}

/// Whether a tool call is to be answered by the library rather than forwarded
/// to the browser.
pub fn is_virtual_tool(name: &str) -> (b: bool)
    ensures
        b == spec_is_virtual_tool(name@),
{
    crate::text::str_eq(name, "assert_visible") || crate::text::str_eq(name, "assert_text_contains") || crate::text::str_eq(
        name,
        "assert_url_matches",
    ) || crate::text::str_eq(name, "assert_element_exists") || crate::text::str_eq(name, "log_step")
}

/// The string arguments of a tool call (an argument that is missing or not a
/// string is `None`).
#[derive(Debug, Clone)]
pub struct ToolArgs {
    pub text: Option<String>,
    pub selector: Option<String>,
    pub expected: Option<String>,
    pub pattern: Option<String>,
    pub description: Option<String>,
    pub message: Option<String>,
    pub status: Option<String>,
}

/// A call of one of the library's tools, with its arguments.
#[derive(Debug, Clone)]
pub enum VirtualCall {
    AssertVisible { text: String },
    AssertTextContains { selector: String, expected: String },
    AssertUrlMatches { pattern: String },
    AssertElementExists { description: String, text: String },
    LogStep { message: String, status: String },
    Unknown { name: String },
}

/// The reply to a tool call.
#[derive(Debug, Clone)]
pub struct ToolReply {
    pub text: String,
    pub is_error: bool,
}

/// The text of an argument, empty when it is missing.
pub open spec fn arg_or_empty(o: Option<String>) -> Seq<char> {
    match o {
        Some(s) => s@,
        None => Seq::empty(),
    }
}

/// The call a tool name and its arguments make; a missing argument is the
/// empty text, a missing log status is `"info"`.
pub open spec fn spec_call(name: Seq<char>, args: ToolArgs, call: VirtualCall) -> bool {
    if name == "assert_visible"@ {
        call matches VirtualCall::AssertVisible { text } && text@ == arg_or_empty(args.text)
    } else if name == "assert_text_contains"@ {
        call matches VirtualCall::AssertTextContains { selector, expected } && selector@
            == arg_or_empty(args.selector) && expected@ == arg_or_empty(args.expected)
    } else if name == "assert_url_matches"@ {
        call matches VirtualCall::AssertUrlMatches { pattern } && pattern@ == arg_or_empty(
            args.pattern,
        )
    } else if name == "assert_element_exists"@ {
        call matches VirtualCall::AssertElementExists { description, text } && description@
            == arg_or_empty(args.description) && text@ == arg_or_empty(args.text)
    } else if name == "log_step"@ {
        call matches VirtualCall::LogStep { message, status } && message@ == arg_or_empty(
            args.message,
        ) && status@ == match args.status {
            Some(s) => s@,
            None => "info"@,
        }
    } else {
        call matches VirtualCall::Unknown { name: n } && n@ == name
    }
}

fn or_empty(o: Option<String>) -> (r: String)
    ensures
        r@ == arg_or_empty(o),
{
    match o {
        Some(s) => s,
        None => String::new(),
    }
}

/// The call a tool name and its arguments make.
pub fn virtual_call(name: &str, args: ToolArgs) -> (c: VirtualCall)
    ensures
        spec_call(name@, args, c),
{
    let ghost a = args;
    if crate::text::str_eq(name, "assert_visible") {
        VirtualCall::AssertVisible { text: or_empty(args.text) }
    } else if crate::text::str_eq(name, "assert_text_contains") {
        VirtualCall::AssertTextContains {
            selector: or_empty(args.selector),
            expected: or_empty(args.expected),
        }
    } else if crate::text::str_eq(name, "assert_url_matches") {
        VirtualCall::AssertUrlMatches { pattern: or_empty(args.pattern) }
    } else if crate::text::str_eq(name, "assert_element_exists") {
        VirtualCall::AssertElementExists {
            description: or_empty(args.description),
            text: or_empty(args.text),
        }
    } else if crate::text::str_eq(name, "log_step") {
        let status = match args.status {
            Some(s) => s,
            None => String::from_str("info"),
        };
        VirtualCall::LogStep { message: or_empty(args.message), status }
    } else {
        VirtualCall::Unknown { name: String::from_str(name) }
    }
}

/// Whether answering the call needs a snapshot of the page.
pub open spec fn spec_needs_snapshot(c: VirtualCall) -> bool {
    c is AssertVisible || c is AssertTextContains || c is AssertUrlMatches || c is AssertElementExists
}

/// Whether answering the call needs a snapshot of the page.
pub fn needs_snapshot(c: &VirtualCall) -> (b: bool)
    ensures
        b == spec_needs_snapshot(*c),
{
    match c {
        VirtualCall::AssertVisible { .. } => true,
        VirtualCall::AssertTextContains { .. } => true,
        VirtualCall::AssertUrlMatches { .. } => true,
        VirtualCall::AssertElementExists { .. } => true,
        _ => false,
    }
}

/// The label of the evidence screenshot a call takes, if it takes one.
pub open spec fn spec_evidence_label(c: VirtualCall) -> Option<Seq<char>> {
    match c {
        VirtualCall::AssertVisible { text } => Some("assert_visible_"@ + spec_sanitize(text@)),
        VirtualCall::AssertTextContains { expected, .. } => Some(
            "assert_text_"@ + spec_sanitize(expected@),
        ),
        _ => None,
    }
}

/// The label of the evidence screenshot a call takes: the visibility and text
/// assertions take one, named after what they look for.
pub fn evidence_label(c: &VirtualCall) -> (r: Option<String>)
    ensures
        match r {
            Some(s) => spec_evidence_label(*c) == Some(s@),
            None => spec_evidence_label(*c) is None,
        },
{
    match c {
        VirtualCall::AssertVisible { text } => {
            let mut out: Vec<char> = Vec::new();
            extend_str(&mut out, "assert_visible_");
            let s = sanitize(text.as_str());
            extend_str(&mut out, s.as_str());
            Some(string_from_chars(out.as_slice()))
        },
        VirtualCall::AssertTextContains { expected, .. } => {
            let mut out: Vec<char> = Vec::new();
            extend_str(&mut out, "assert_text_");
            let s = sanitize(expected.as_str());
            extend_str(&mut out, s.as_str());
            Some(string_from_chars(out.as_slice()))
        },
        _ => None,
    }
}

/// The reply when no snapshot could be taken.
pub fn snapshot_failed(error: &str) -> (r: ToolReply)
    ensures
        r.text@ == "Failed to take snapshot: "@ + error@,
        r.is_error,
{
    let mut out: Vec<char> = Vec::new();
    extend_str(&mut out, "Failed to take snapshot: ");
    extend_str(&mut out, error);
    ToolReply { text: string_from_chars(out.as_slice()), is_error: true }
}

/// The reply the model gets when a browser tool it called failed: an error
/// reply naming the failure, so that the run goes on.
pub fn forward_failed(error: &str) -> (r: ToolReply)
    ensures
        r.text@ == "Error: "@ + error@,
        r.is_error,
{
    let mut out: Vec<char> = Vec::new();
    extend_str(&mut out, "Error: ");
    extend_str(&mut out, error);
    ToolReply { text: string_from_chars(out.as_slice()), is_error: true }
}

/// Whether `n` occurs in `h`, ignoring case.
pub open spec fn lower_contains(h: Seq<char>, n: Seq<char>) -> bool {
    spec_contains(spec_to_lowercase(h), spec_to_lowercase(n))
}

/// Whether `c` is `d`, ignoring ASCII case (`d` being lower-case).
pub open spec fn same_ignoring_case(c: char, d: char) -> bool {
    c == d || ('a' <= d && d <= 'z' && (c as int) == (d as int) - 32)
}

/// Whether `n` (lower-case) occurs in `h` at position `i`, ignoring ASCII case.
pub open spec fn matches_ci_at(h: Seq<char>, n: Seq<char>, i: int) -> bool {
    &&& 0 <= i
    &&& i + n.len() <= h.len()
    &&& forall|j: int| 0 <= j < n.len() ==> same_ignoring_case(#[trigger] h[i + j], n[j])
}

/// The last position at or before `i` at which `n` occurs in `h`, ignoring
/// ASCII case.
pub open spec fn last_ci_from(h: Seq<char>, n: Seq<char>, i: int) -> Option<int>
    decreases i + 1,
{
    if i < 0 {
        None
    } else if matches_ci_at(h, n, i) {
        Some(i)
    } else {
        last_ci_from(h, n, i - 1)
    }
}

/// The last position of the URL marker `page url:` in a line, in any case.
pub open spec fn url_marker(l: Seq<char>) -> Option<int> {
    last_ci_from(l, "page url:"@, l.len() - 9)
}

/// The first snapshot line, from line `i` on, that holds the URL marker.
pub open spec fn url_line_from(ls: Seq<Seq<char>>, i: int) -> Option<Seq<char>>
    decreases ls.len() - i,
{
    if i < 0 || i >= ls.len() {
        None
    } else if url_marker(ls[i]) is Some {
        Some(ls[i])
    } else {
        url_line_from(ls, i + 1)
    }
}

/// The page URL a snapshot shows: on the first line that holds the marker
/// `page url:` (in any case), the trimmed text after its last marker; empty
/// without such a line.
pub open spec fn current_url(snapshot: Seq<char>) -> Seq<char> {
    match url_line_from(spec_lines(snapshot), 0) {
        Some(l) => match url_marker(l) {
            Some(k) => spec_trim(l.skip(k + 9)),
            None => Seq::empty(),
        },
        None => Seq::empty(),
    }
}

/// Whether a line mentions `a` and, when `need_b`, also `b`, ignoring case.
pub open spec fn line_has(l: Seq<char>, a: Seq<char>, b: Seq<char>, need_b: bool) -> bool {
    lower_contains(l, a) && (need_b ==> lower_contains(l, b))
}

/// Whether some line of the snapshot mentions `a` and, when `need_b`, also
/// `b` in that same line.
pub open spec fn some_line_has(snapshot: Seq<char>, a: Seq<char>, b: Seq<char>, need_b: bool) -> bool {
    exists|i: int| 0 <= i < spec_lines(snapshot).len() && #[trigger] line_has(spec_lines(snapshot)[i], a, b, need_b)
}

/// The fields of an assertion, by their texts.
pub open spec fn assertion_is(
    a: Assertion,
    ty: AssertionType,
    target: Seq<char>,
    expected: Seq<char>,
    actual: Seq<char>,
    passed: bool,
    path: Option<Seq<char>>,
) -> bool {
    &&& a.assertion_type == ty
    &&& a.target@ == target
    &&& a.expected@ == expected
    &&& a.actual@ == actual
    &&& a.passed == passed
    &&& match (a.screenshot_path, path) {
        (Some(x), Some(y)) => x@ == y,
        (None, None) => true,
        _ => false,
    }
}

/// "Found" or "Not found".
pub open spec fn found_text(found: bool) -> Seq<char> {
    if found {
        "Found"@
    } else {
        "Not found"@
    }
}

/// The view of an optional string.
pub open spec fn path_view(o: Option<String>) -> Option<Seq<char>> {
    match o {
        Some(s) => Some(s@),
        None => None,
    }
}

/// What answering `c` on `snapshot` records and replies; `path` is the
/// evidence screenshot, if one was taken.
pub open spec fn spec_evaluation(
    c: VirtualCall,
    snapshot: Seq<char>,
    path: Option<Seq<char>>,
    a: Option<Assertion>,
    r: ToolReply,
) -> bool {
    match c {
        VirtualCall::AssertVisible { text } => {
            let found = lower_contains(snapshot, text@);
            &&& a matches Some(x) && assertion_is(
                x,
                AssertionType::Visible,
                text@,
                "Text '"@ + text@ + "' visible on page"@,
                found_text(found),
                found,
                path,
            )
            &&& !r.is_error
            &&& r.text@ == status_label_of(found) + ": Text '"@ + text@ + "' is "@ + if found {
                "visible on the page"@
            } else {
                "NOT visible on the page"@
            }
        },
        VirtualCall::AssertTextContains { selector, expected } => {
            let found = some_line_has(snapshot, selector@, expected@, true);
            &&& a matches Some(x) && assertion_is(
                x,
                AssertionType::TextContains,
                selector@,
                expected@,
                if found {
                    "Contains '"@ + expected@ + "'"@
                } else {
                    "Not found"@
                },
                found,
                path,
            )
            &&& !r.is_error
            &&& r.text@ == status_label_of(found) + ": Element '"@ + selector@ + "' "@ + (if found {
                "contains"@
            } else {
                "does NOT contain"@
            }) + " '"@ + expected@ + "'"@
        },
        VirtualCall::AssertUrlMatches { pattern } => {
            let url = current_url(snapshot);
            let found = lower_contains(url, pattern@);
            &&& a matches Some(x) && assertion_is(
                x,
                AssertionType::UrlMatches,
                "current URL"@,
                pattern@,
                url,
                found,
                None,
            )
            &&& !r.is_error
            &&& r.text@ == status_label_of(found) + ": URL '"@ + url + "' "@ + (if found {
                "matches"@
            } else {
                "does NOT match"@
            }) + " pattern '"@ + pattern@ + "'"@
        },
        VirtualCall::AssertElementExists { description, text } => {
            let found = some_line_has(snapshot, description@, text@, text@.len() > 0);
            &&& a matches Some(x) && assertion_is(
                x,
                AssertionType::ElementExists,
                description@,
                if text@.len() == 0 {
                    "Element '"@ + description@ + "' exists"@
                } else {
                    "Element '"@ + description@ + "' with text '"@ + text@ + "'"@
                },
                found_text(found),
                found,
                None,
            )
            &&& !r.is_error
            &&& r.text@ == status_label_of(found) + ": Element '"@ + description@ + "' "@ + if found {
                "exists"@
            } else {
                "does NOT exist"@
            }
        },
        VirtualCall::LogStep { message, status } => {
            &&& a is None
            &&& !r.is_error
            &&& r.text@ == "["@ + spec_to_uppercase(status@) + "] "@ + message@
        },
        VirtualCall::Unknown { name } => {
            &&& a is None
            &&& r.is_error
            &&& r.text@ == "Unknown virtual tool: "@ + name@
        },
    }
}

fn label(found: bool) -> (r: &'static str)
    ensures
        r@ == status_label_of(found),
{
    if found {
        "PASS"
    } else {
        "FAIL"
    }
}

fn same_ignoring_case_exec(c: char, d: char) -> (b: bool)
    ensures
        b == same_ignoring_case(c, d),
{
    c == d || ('a' <= d && d <= 'z' && (c as u32) + 32 == (d as u32))
}

fn matches_ci_at_exec(h: &[char], n: &[char], i: usize) -> (b: bool)
    ensures
        b == matches_ci_at(h@, n@, i as int),
{
    if i > h.len() || n.len() > h.len() - i {
        return false;
    }
    let mut j: usize = 0;
    while j < n.len()
        invariant
            j <= n@.len(),
            i + n@.len() <= h@.len(),
            h@.len() == h.len(),
            forall|k: int| 0 <= k < j ==> same_ignoring_case(#[trigger] h@[i + k], n@[k]),
        decreases n@.len() - j,
    {
        if !same_ignoring_case_exec(h[i + j], n[j]) {
            return false;
        }
        j += 1;
    }
    true
}

/// The last position of `n` in `h`, ignoring ASCII case.
fn last_ci(h: &[char], n: &[char]) -> (r: Option<usize>)
    ensures
        match last_ci_from(h@, n@, h@.len() - n@.len()) {
            Some(k) => r == Some(k as usize),
            None => r is None,
        },
{
    if n.len() > h.len() {
        proof {
            assert(last_ci_from(h@, n@, h@.len() - n@.len()) is None) by {
                lemma_last_ci_none(h@, n@, h@.len() - n@.len());
            }
        }
        return None;
    }
    let mut i: usize = h.len() - n.len();
    loop
        invariant
            i <= h@.len() - n@.len(),
            n@.len() <= h@.len(),
            last_ci_from(h@, n@, h@.len() - n@.len()) == last_ci_from(h@, n@, i as int),
        decreases i,
    {
        if matches_ci_at_exec(h, n, i) {
            return Some(i);
        }
        if i == 0 {
            proof {
                lemma_last_ci_none(h@, n@, -1);
            }
            return None;
        }
        i -= 1;
    }
}

proof fn lemma_last_ci_some(h: Seq<char>, n: Seq<char>, i: int)
    ensures
        last_ci_from(h, n, i) matches Some(k) ==> matches_ci_at(h, n, k) && k <= i,
    decreases i + 1,
{
    if i >= 0 && !matches_ci_at(h, n, i) {
        lemma_last_ci_some(h, n, i - 1);
    }
}

proof fn lemma_last_ci_none(h: Seq<char>, n: Seq<char>, i: int)
    requires
        i < 0 || n.len() > h.len(),
    ensures
        last_ci_from(h, n, i) is None,
    decreases i + 1,
{
    if i >= 0 {
        lemma_last_ci_none(h, n, i - 1);
    }
}

/// Finds the page URL a snapshot shows.
fn find_current_url(snapshot: &[char]) -> (r: Vec<char>)
    ensures
        r@ == current_url(snapshot@),
{
    let ls = lines(snapshot);
    let ghost lv = ls@.map_values(|l: Vec<char>| l@);
    let key = chars_of("page url:");
    proof {
        reveal_strlit("page url:");
    }
    let mut i: usize = 0;
    while i < ls.len()
        invariant
            i <= ls@.len(),
            lv == ls@.map_values(|l: Vec<char>| l@),
            lv == spec_lines(snapshot@),
            key@ == "page url:"@,
            key@.len() == 9,
            url_line_from(lv, 0) == url_line_from(lv, i as int),
        decreases ls@.len() - i,
    {
        assert(lv[i as int] == ls@[i as int]@);
        match last_ci(ls[i].as_slice(), key.as_slice()) {
            Some(k) => {
                let n = ls[i].len();
                proof {
                    lemma_last_ci_some(ls@[i as int]@, key@, ls@[i as int]@.len() - 9);
                    assert(matches_ci_at(ls@[i as int]@, key@, k as int));
                    assert(k + 9 <= n);
                }
                let piece = slice_from(ls[i].as_slice(), k + 9);
                return trim(piece.as_slice());
            },
            None => {},
        }
        i += 1;
    }
    Vec::new()
}

/// Whether some line of the snapshot mentions `a` and, when `need_b`, also
/// `b`, ignoring case.
fn some_line_has_exec(snapshot: &str, a: &str, b: &str, need_b: bool) -> (r: bool)
    ensures
        r == some_line_has(snapshot@, a@, b@, need_b),
{
    let (ls, lows) = lines_lowered(snapshot);
    let ghost lv = ls@.map_values(|l: Vec<char>| l@);
    let ac = chars_of(a);
    let la = to_lowercase(ac.as_slice());
    let bc = chars_of(b);
    let lb = to_lowercase(bc.as_slice());
    let mut i: usize = 0;
    while i < ls.len()
        invariant
            i <= ls@.len(),
            lv == ls@.map_values(|l: Vec<char>| l@),
            lv == spec_lines(snapshot@),
            lows@.len() == ls@.len(),
            forall|j: int| 0 <= j < ls@.len() ==> (#[trigger] lows@[j])@ == spec_to_lowercase(ls@[j]@),
            la@ == spec_to_lowercase(a@),
            lb@ == spec_to_lowercase(b@),
            forall|j: int| 0 <= j < i ==> !line_has(#[trigger] lv[j], a@, b@, need_b),
        decreases ls@.len() - i,
    {
        assert(lv[i as int] == ls@[i as int]@);
        let has_a = contains(lows[i].as_slice(), la.as_slice());
        let has = has_a && (!need_b || contains(lows[i].as_slice(), lb.as_slice()));
        if has {
            assert(line_has(lv[i as int], a@, b@, need_b));
            return true;
        }
        i += 1;
    }
    false
}

/// Answers a call of one of the library's tools from a snapshot of the page:
/// the assertion it records (for the assertion tools) and the reply.
pub fn evaluate(c: &VirtualCall, snapshot: &str, screenshot_path: Option<String>) -> (r: (
    Option<Assertion>,
    ToolReply,
))
    ensures
        spec_evaluation(*c, snapshot@, path_view(screenshot_path), r.0, r.1),
{
    let snap = chars_of(snapshot);
    match c {
        VirtualCall::AssertVisible { text } => {
            let lower = to_lowercase(snap.as_slice());
            let t = chars_of(text.as_str());
            let lt = to_lowercase(t.as_slice());
            let found = contains(lower.as_slice(), lt.as_slice());
            let mut exp: Vec<char> = Vec::new();
            extend_str(&mut exp, "Text '");
            extend_str(&mut exp, text.as_str());
            extend_str(&mut exp, "' visible on page");
            let actual = if found { String::from_str("Found") } else { String::from_str("Not found") };
            let a = Assertion {
                assertion_type: AssertionType::Visible,
                target: text.clone(),
                expected: string_from_chars(exp.as_slice()),
                actual,
                passed: found,
                screenshot_path,
            };
            let mut msg: Vec<char> = Vec::new();
            extend_str(&mut msg, label(found));
            extend_str(&mut msg, ": Text '");
            extend_str(&mut msg, text.as_str());
            extend_str(&mut msg, "' is ");
            extend_str(&mut msg, if found { "visible on the page" } else { "NOT visible on the page" });
            (Some(a), ToolReply { text: string_from_chars(msg.as_slice()), is_error: false })
        },
        VirtualCall::AssertTextContains { selector, expected } => {
            let found = some_line_has_exec(snapshot, selector.as_str(), expected.as_str(), true);
            let actual = if found {
                let mut v: Vec<char> = Vec::new();
                extend_str(&mut v, "Contains '");
                extend_str(&mut v, expected.as_str());
                extend_str(&mut v, "'");
                string_from_chars(v.as_slice())
            } else {
                String::from_str("Not found")
            };
            let a = Assertion {
                assertion_type: AssertionType::TextContains,
                target: selector.clone(),
                expected: expected.clone(),
                actual,
                passed: found,
                screenshot_path,
            };
            let mut msg: Vec<char> = Vec::new();
            extend_str(&mut msg, label(found));
            extend_str(&mut msg, ": Element '");
            extend_str(&mut msg, selector.as_str());
            extend_str(&mut msg, "' ");
            extend_str(&mut msg, if found { "contains" } else { "does NOT contain" });
            extend_str(&mut msg, " '");
            extend_str(&mut msg, expected.as_str());
            extend_str(&mut msg, "'");
            (Some(a), ToolReply { text: string_from_chars(msg.as_slice()), is_error: false })
        },
        VirtualCall::AssertUrlMatches { pattern } => {
            let url = find_current_url(snap.as_slice());
            let lu = to_lowercase(url.as_slice());
            let p = chars_of(pattern.as_str());
            let lp = to_lowercase(p.as_slice());
            let found = contains(lu.as_slice(), lp.as_slice());
            let a = Assertion {
                assertion_type: AssertionType::UrlMatches,
                target: String::from_str("current URL"),
                expected: pattern.clone(),
                actual: string_from_chars(url.as_slice()),
                passed: found,
                screenshot_path: None,
            };
            let mut msg: Vec<char> = Vec::new();
            extend_str(&mut msg, label(found));
            extend_str(&mut msg, ": URL '");
            extend_chars(&mut msg, url.as_slice());
            extend_str(&mut msg, "' ");
            extend_str(&mut msg, if found { "matches" } else { "does NOT match" });
            extend_str(&mut msg, " pattern '");
            extend_str(&mut msg, pattern.as_str());
            extend_str(&mut msg, "'");
            (Some(a), ToolReply { text: string_from_chars(msg.as_slice()), is_error: false })
        },
        VirtualCall::AssertElementExists { description, text } => {
            let t = chars_of(text.as_str());
            let found = some_line_has_exec(snapshot, description.as_str(), text.as_str(), t.len() > 0);
            let mut exp: Vec<char> = Vec::new();
            extend_str(&mut exp, "Element '");
            extend_str(&mut exp, description.as_str());
            if t.len() == 0 {
                extend_str(&mut exp, "' exists");
            } else {
                extend_str(&mut exp, "' with text '");
                extend_str(&mut exp, text.as_str());
                extend_str(&mut exp, "'");
            }
            let actual = if found { String::from_str("Found") } else { String::from_str("Not found") };
            let a = Assertion {
                assertion_type: AssertionType::ElementExists,
                target: description.clone(),
                expected: string_from_chars(exp.as_slice()),
                actual,
                passed: found,
                screenshot_path: None,
            };
            let mut msg: Vec<char> = Vec::new();
            extend_str(&mut msg, label(found));
            extend_str(&mut msg, ": Element '");
            extend_str(&mut msg, description.as_str());
            extend_str(&mut msg, "' ");
            extend_str(&mut msg, if found { "exists" } else { "does NOT exist" });
            (Some(a), ToolReply { text: string_from_chars(msg.as_slice()), is_error: false })
        },
        VirtualCall::LogStep { message, status } => {
            let s = chars_of(status.as_str());
            let up = to_uppercase(s.as_slice());
            let mut msg: Vec<char> = Vec::new();
            extend_str(&mut msg, "[");
            extend_chars(&mut msg, up.as_slice());
            extend_str(&mut msg, "] ");
            extend_str(&mut msg, message.as_str());
            (None, ToolReply { text: string_from_chars(msg.as_slice()), is_error: false })
        },
        VirtualCall::Unknown { name } => {
            let mut msg: Vec<char> = Vec::new();
            extend_str(&mut msg, "Unknown virtual tool: ");
            extend_str(&mut msg, name.as_str());
            (None, ToolReply { text: string_from_chars(msg.as_slice()), is_error: true })
        },
    }
}

} // verus!
