//! What the browser client decides on the replies of the Playwright MCP
//! server: the text of a reply, the error a failed call reports, the image
//! of a screenshot, when polling for a text stops, and how the server is
//! started.

use vstd::prelude::*;

use crate::text::{chars_of, contains, extend_str, spec_contains, spec_join, string_from_chars};
use base64::engine::general_purpose::STANDARD;
use base64::Engine;

verus! {

/// One item of the content of a tool reply.
#[derive(Debug, Clone)]
pub enum ToolContent {
    /// A text item.
    Text(String),
    /// An image item, with its data encoded in base64.
    Image(String),
    /// Any other kind of item (a resource, audio, a link).
    Other,
}

/// The reply of a tool call: its error flag and its content items.
#[derive(Debug, Clone)]
pub struct ToolOutput {
    pub is_error: Option<bool>,
    pub content: Vec<ToolContent>,
}

/// The texts of the text items, in order.
pub open spec fn texts_of(cs: Seq<ToolContent>) -> Seq<Seq<char>>
    decreases cs.len(),
{
    if cs.len() == 0 {
        Seq::empty()
    } else {
        let rest = texts_of(cs.drop_last());
        match cs.last() {
            ToolContent::Text(t) => rest.push(t@),
            _ => rest,
        }
    }
}

/// The text of a reply: its text items joined by newlines.
pub fn extract_text(out: &ToolOutput) -> (r: String)
    ensures
        r@ == spec_join(texts_of(out.content@), "\n"@),
{
    let mut texts: Vec<String> = Vec::new();
    let mut i: usize = 0;
    while i < out.content.len()
        invariant
            i <= out.content@.len(),
            texts@.map_values(|t: String| t@) == texts_of(out.content@.take(i as int)),
        decreases out.content@.len() - i,
    {
        assert(out.content@.take(i + 1).drop_last() =~= out.content@.take(i as int));
        match &out.content[i] {
            ToolContent::Text(t) => {
                texts.push(t.clone());
                assert(texts@.map_values(|t: String| t@) =~= texts_of(out.content@.take(i as int)).push(
                    t@,
                ));
            },
            _ => {},
        }
        i += 1;
    }
    assert(out.content@.take(out.content@.len() as int) =~= out.content@);
    crate::text::join(&texts, "\n")
}

/// The first text item of a reply, if any.
pub open spec fn first_text(cs: Seq<ToolContent>) -> Option<Seq<char>>
    decreases cs.len(),
{
    if cs.len() == 0 {
        None
    } else {
        match cs[0] {
            ToolContent::Text(t) => Some(t@),
            _ => first_text(cs.drop_first()),
        }
    }
}

/// The position of the first text item.
fn first_text_index(cs: &Vec<ToolContent>) -> (r: Option<usize>)
    ensures
        match r {
            Some(k) => k < cs@.len() && (cs@[k as int] matches ToolContent::Text(t) && first_text(cs@)
                == Some(t@)),
            None => first_text(cs@) is None,
        },
{
    let mut i: usize = 0;
    assert(cs@.skip(0) =~= cs@);
    while i < cs.len()
        invariant
            i <= cs@.len(),
            first_text(cs@) == first_text(cs@.skip(i as int)),
        decreases cs@.len() - i,
    {
        assert(cs@.skip(i as int).drop_first() =~= cs@.skip(i + 1));
        assert(cs@.skip(i as int)[0] == cs@[i as int]);
        match &cs[i] {
            ToolContent::Text(_) => {
                return Some(i);
            },
            _ => {},
        }
        i += 1;
    }
    assert(cs@.skip(i as int) =~= Seq::<ToolContent>::empty());
    None
}

/// The error a call of tool `name` reports when its reply is flagged as an
/// error: the first text of the reply, or a generic message without text.
pub open spec fn spec_tool_error(name: Seq<char>, out: ToolOutput) -> Option<Seq<char>> {
    if out.is_error == Some(true) {
        let msg = match first_text(out.content@) {
            Some(t) => t,
            None => "Unknown tool error"@,
        };
        Some("Tool '"@ + name + "' returned error: "@ + msg)
    } else {
        None
    }
}

/// The error of a tool reply, or `None` when the reply is not flagged as
/// an error.
pub fn tool_error(name: &str, out: &ToolOutput) -> (r: Option<String>)
    ensures
        match (r, spec_tool_error(name@, *out)) {
            (Some(a), Some(b)) => a@ == b,
            (None, None) => true,
            _ => false,
        },
{
    match out.is_error {
        Some(true) => {},
        _ => {
            return None;
        },
    }
    let found = first_text_index(&out.content);
    let mut m: Vec<char> = Vec::new();
    extend_str(&mut m, "Tool '");
    extend_str(&mut m, name);
    extend_str(&mut m, "' returned error: ");
    match found {
        Some(k) => {
            match &out.content[k] {
                ToolContent::Text(t) => {
                    extend_str(&mut m, t.as_str());
                },
                _ => {},
            }
        },
        None => {
            extend_str(&mut m, "Unknown tool error");
        },
    }
    Some(string_from_chars(m.as_slice()))
}

/// The data of the first image item of a reply, if any.
pub open spec fn first_image(cs: Seq<ToolContent>) -> Option<Seq<char>>
    decreases cs.len(),
{
    if cs.len() == 0 {
        None
    } else {
        match cs[0] {
            ToolContent::Image(d) => Some(d@),
            _ => first_image(cs.drop_first()),
        }
    }
}

/// What `base64`'s standard engine makes of a text when decoding it: the
/// bytes, or the text of the decoding error.
pub uninterp spec fn base64_decoded(text: Seq<char>) -> Result<Seq<u8>, Seq<char>>;

/// `base64::engine::general_purpose::STANDARD.decode`: the bytes a padded
/// standard-alphabet text encodes, or the error's text. Both depend on the
/// text alone.
#[verifier::external_body]
fn decode_base64(text: &str) -> (r: Result<Vec<u8>, String>)
    ensures
        match r {
            Ok(b) => base64_decoded(text@) == Ok::<Seq<u8>, Seq<char>>(b@),
            Err(e) => base64_decoded(text@) == Err::<Seq<u8>, Seq<char>>(e@),
        },
{
    match STANDARD.decode(text) {
        Ok(b) => Ok(b),
        Err(e) => Err(e.to_string()),
    }
}

/// The image of a screenshot reply: the base64 data of its first image item,
/// as it comes; an error when it has none.
pub open spec fn spec_screenshot_data(out: ToolOutput) -> Result<Seq<char>, Seq<char>> {
    match first_image(out.content@) {
        None => Err("Screenshot returned no image content"@),
        Some(d) => Ok(d),
    }
}

/// The bytes a screenshot's base64 data stands for, or why it could not be
/// decoded.
pub open spec fn spec_screenshot_bytes(data: Seq<char>) -> Result<Seq<u8>, Seq<char>> {
    match base64_decoded(data) {
        Ok(b) => Ok(b),
        Err(e) => Err("Failed to decode screenshot: "@ + e),
    }
}

/// The image of a screenshot reply given what decoding its image data gave:
/// the bytes, or the decoding error with what failed.
pub fn decoded_screenshot(decoded: Result<Vec<u8>, String>) -> (r: Result<Vec<u8>, String>)
    ensures
        match (r, decoded) {
            (Ok(a), Ok(b)) => a@ == b@,
            (Err(a), Err(b)) => a@ == "Failed to decode screenshot: "@ + b@,
            _ => false,
        },
{
    match decoded {
        Ok(b) => Ok(b),
        Err(e) => {
            let mut m: Vec<char> = Vec::new();
            extend_str(&mut m, "Failed to decode screenshot: ");
            extend_str(&mut m, e.as_str());
            Err(string_from_chars(m.as_slice()))
        },
    }
}

/// Decodes a screenshot's base64 data into the image bytes.
pub fn screenshot_bytes(data: &str) -> (r: Result<Vec<u8>, String>)
    ensures
        match (r, spec_screenshot_bytes(data@)) {
            (Ok(a), Ok(b)) => a@ == b,
            (Err(a), Err(b)) => a@ == b,
            _ => false,
        },
{
    decoded_screenshot(decode_base64(data))
}

/// The base64-encoded image data of a screenshot reply.
pub fn screenshot_data(out: &ToolOutput) -> (r: Result<String, String>)
    ensures
        match (r, spec_screenshot_data(*out)) {
            (Ok(a), Ok(b)) => a@ == b,
            (Err(a), Err(b)) => a@ == b,
            _ => false,
        },
{
    let mut i: usize = 0;
    assert(out.content@.skip(0) =~= out.content@);
    while i < out.content.len()
        invariant
            i <= out.content@.len(),
            first_image(out.content@) == first_image(out.content@.skip(i as int)),
        decreases out.content@.len() - i,
    {
        assert(out.content@.skip(i as int).drop_first() =~= out.content@.skip(i + 1));
        assert(out.content@.skip(i as int)[0] == out.content@[i as int]);
        match &out.content[i] {
            ToolContent::Image(d) => {
                return Ok(d.clone());
            },
            _ => {},
        }
        i += 1;
    }
    assert(out.content@.skip(i as int) =~= Seq::<ToolContent>::empty());
    Err(String::from_str("Screenshot returned no image content"))
}

/// What a poll for a text does next.
#[derive(Debug, Clone, Copy, PartialEq, Eq, Structural)]
pub enum WaitStep {
    /// The text is on the page.
    Found,
    /// The time is up without the text.
    TimedOut,
    /// Wait a moment and take another snapshot.
    Poll,
}

/// How long a poll waits between two snapshots, in milliseconds.
pub fn poll_interval_ms() -> (r: u64)
    ensures
        r == 500,
{
    500
}

/// The next step of a poll for `text`, after a snapshot taken when
/// `elapsed_ns` nanoseconds had passed of a timeout of `timeout_ms`
/// milliseconds: found when the snapshot holds the text, timed out when more
/// time than the timeout has passed, another poll otherwise.
pub fn wait_step(snapshot: &str, text: &str, elapsed_ns: u128, timeout_ms: u64) -> (r: WaitStep)
    ensures
        spec_contains(snapshot@, text@) ==> r == WaitStep::Found,
        !spec_contains(snapshot@, text@) && elapsed_ns > timeout_ms * 1_000_000 ==> r
            == WaitStep::TimedOut,
        !spec_contains(snapshot@, text@) && elapsed_ns <= timeout_ms * 1_000_000 ==> r
            == WaitStep::Poll,
{
    let s = chars_of(snapshot);
    let t = chars_of(text);
    if contains(s.as_slice(), t.as_slice()) {
        WaitStep::Found
    } else if elapsed_ns > (timeout_ms as u128) * 1_000_000 {
        WaitStep::TimedOut
    } else {
        WaitStep::Poll
    }
}

/// The arguments `npx` gets to start the Playwright MCP server for
/// Chromium, headless or not.
pub open spec fn spec_playwright_args(headless: bool) -> Seq<Seq<char>> {
    let base = seq!["@playwright/mcp@latest"@, "--browser"@, "chromium"@];
    if headless {
        base.push("--headless"@)
    } else {
        base
    }
}

/// The arguments that start the Playwright MCP server.
pub fn playwright_args(headless: bool) -> (r: Vec<String>)
    ensures
        r@.map_values(|a: String| a@) == spec_playwright_args(headless),
{
    let mut r: Vec<String> = Vec::new();
    r.push(String::from_str("@playwright/mcp@latest"));
    r.push(String::from_str("--browser"));
    r.push(String::from_str("chromium"));
    if headless {
        r.push(String::from_str("--headless"));
    }
    assert(r@.map_values(|a: String| a@) =~= spec_playwright_args(headless));
    r
}

} // verus!
