//! The decisions of the `test` command: which report formats to write,
//! which blueprint to run, how the results read and what exit code a CI run
//! ends with.

use vstd::prelude::*;

use crate::report::page::spec_seconds_text;
use crate::report::{OverallResult, TestReport};
use crate::text::{chars_of, decimal, extend_chars, extend_str, spec_decimal, string_from_chars, to_lowercase};

verus! {

/// Output format for test reports.
#[derive(Debug, Clone, Copy, PartialEq, Eq, Structural)]
pub enum ReportFormat {
    Json,
    Html,
    Both,
}

/// The message for a format name that is not known.
pub open spec fn unknown_format_message(s: Seq<char>) -> Seq<char> {
    "Unknown format: "@ + s + ". Expected: json, html, both"@
}

/// The format a lower-cased name stands for, or the error for `given`.
pub open spec fn spec_format_of(lower: Seq<char>, given: Seq<char>) -> Result<ReportFormat, Seq<char>> {
    if lower == "json"@ {
        Ok(ReportFormat::Json)
    } else if lower == "html"@ {
        Ok(ReportFormat::Html)
    } else if lower == "both"@ {
        Ok(ReportFormat::Both)
    } else {
        Err(unknown_format_message(given))
    }
}

/// Whether a parse result is the one `spec_format_of` gives.
pub open spec fn parsed_as(r: Result<ReportFormat, String>, e: Result<ReportFormat, Seq<char>>) -> bool {
    match (r, e) {
        (Ok(a), Ok(b)) => a == b,
        (Err(a), Err(b)) => a@ == b,
        _ => false,
    }
}

impl ReportFormat {
    /// The format named by `lower`, the lower-cased form of the name
    /// `given` as it was given.
    pub fn from_lowered(lower: &[char], given: &str) -> (r: Result<ReportFormat, String>)
        ensures
            parsed_as(r, spec_format_of(lower@, given@)),
    {
        proof {
            reveal_strlit("json");
            reveal_strlit("html");
            reveal_strlit("both");
        }
        let json = chars_of("json");
        let html = chars_of("html");
        let both = chars_of("both");
        if crate::text::starts_with(lower, json.as_slice()) && lower.len() == json.len() {
            assert(lower@ =~= "json"@);
            Ok(ReportFormat::Json)
        } else if crate::text::starts_with(lower, html.as_slice()) && lower.len() == html.len() {
            assert(lower@ =~= "html"@);
            Ok(ReportFormat::Html)
        } else if crate::text::starts_with(lower, both.as_slice()) && lower.len() == both.len() {
            assert(lower@ =~= "both"@);
            Ok(ReportFormat::Both)
        } else {
            proof {
                if lower@ == "json"@ {
                    assert(lower@.subrange(0, 4) =~= json@);
                }
                if lower@ == "html"@ {
                    assert(lower@.subrange(0, 4) =~= html@);
                }
                if lower@ == "both"@ {
                    assert(lower@.subrange(0, 4) =~= both@);
                }
            }
            let mut m: Vec<char> = Vec::new();
            extend_str(&mut m, "Unknown format: ");
            extend_str(&mut m, given);
            extend_str(&mut m, ". Expected: json, html, both");
            Err(string_from_chars(m.as_slice()))
        }
    }

    /// Parses a format name, ignoring case: `json`, `html` or `both`.
    pub fn parse(s: &str) -> (r: Result<ReportFormat, String>)
        ensures
            parsed_as(r, spec_format_of(crate::text::spec_to_lowercase(s@), s@)),
    {
        let c = chars_of(s);
        let lower = to_lowercase(c.as_slice());
        ReportFormat::from_lowered(lower.as_slice(), s)
    }

    /// The format named on the command line; an unknown name writes both.
    pub fn from_arg(s: &str) -> (r: ReportFormat)
        ensures
            r == (match spec_format_of(crate::text::spec_to_lowercase(s@), s@) {
                Ok(f) => f,
                Err(_) => ReportFormat::Both,
            }),
    {
        match ReportFormat::parse(s) {
            Ok(f) => f,
            Err(_) => ReportFormat::Both,
        }
    }

    /// Whether a JSON report is written.
    pub fn writes_json(self) -> (b: bool)
        ensures
            b == (self is Json || self is Both),
    {
        match self {
            ReportFormat::Json | ReportFormat::Both => true,
            ReportFormat::Html => false,
        }
    }

    /// Whether an HTML report is written.
    pub fn writes_html(self) -> (b: bool)
        ensures
            b == (self is Html || self is Both),
    {
        match self {
            ReportFormat::Html | ReportFormat::Both => true,
            ReportFormat::Json => false,
        }
    }
}

impl core::str::FromStr for ReportFormat {
    type Err = String;

    fn from_str(s: &str) -> (r: Result<ReportFormat, String>)
        ensures
            parsed_as(r, spec_format_of(crate::text::spec_to_lowercase(s@), s@)),
    {
        ReportFormat::parse(s)
    }
}

/// The places where a blueprint given by name is looked for, in order.
pub open spec fn spec_blueprint_candidates(name: Seq<char>) -> Seq<Seq<char>> {
    seq!["blueprints/"@ + name + ".yaml"@, "blueprints/"@ + name + ".yml"@]
}

/// The places where a blueprint given by name is looked for, in order: the
/// first that exists is run.
pub fn blueprint_candidates(name: &str) -> (r: Vec<String>)
    ensures
        r@.map_values(|p: String| p@) == spec_blueprint_candidates(name@),
{
    let mut a: Vec<char> = Vec::new();
    extend_str(&mut a, "blueprints/");
    extend_str(&mut a, name);
    extend_str(&mut a, ".yaml");
    let mut b: Vec<char> = Vec::new();
    extend_str(&mut b, "blueprints/");
    extend_str(&mut b, name);
    extend_str(&mut b, ".yml");
    let mut r: Vec<String> = Vec::new();
    r.push(string_from_chars(a.as_slice()));
    r.push(string_from_chars(b.as_slice()));
    assert(r@.map_values(|p: String| p@) =~= spec_blueprint_candidates(name@));
    r
}

/// The message when no candidate of a named blueprint exists.
pub fn blueprint_not_found(name: &str) -> (r: String)
    ensures
        r@ == "Blueprint not found: "@ + name@,
{
    let mut m: Vec<char> = Vec::new();
    extend_str(&mut m, "Blueprint not found: ");
    extend_str(&mut m, name);
    string_from_chars(m.as_slice())
}

/// The blueprint run when none is named: the login test when only the login
/// is tested, auto-discovery without a test specification, and
/// explore-and-report with one.
pub open spec fn spec_default_blueprint(login_only: bool, has_spec: bool) -> Seq<char> {
    if login_only {
        "blueprints/login-test.yaml"@
    } else if !has_spec {
        "blueprints/auto-discover.yaml"@
    } else {
        "blueprints/explore-and-report.yaml"@
    }
}

/// The blueprint run when none is named.
pub fn default_blueprint(login_only: bool, has_spec: bool) -> (r: &'static str)
    ensures
        r@ == spec_default_blueprint(login_only, has_spec),
{
    if login_only {
        "blueprints/login-test.yaml"
    } else if !has_spec {
        "blueprints/auto-discover.yaml"
    } else {
        "blueprints/explore-and-report.yaml"
    }
}

/// The name of a report file made at `stamp` with extension `ext`.
pub fn report_file_name(stamp: &str, ext: &str) -> (r: String)
    ensures
        r@ == "report_"@ + stamp@ + "."@ + ext@,
{
    let mut m: Vec<char> = Vec::new();
    extend_str(&mut m, "report_");
    extend_str(&mut m, stamp);
    extend_str(&mut m, ".");
    extend_str(&mut m, ext);
    string_from_chars(m.as_slice())
}

/// The exit code of a CI run: 0 when everything passed, 1 when something
/// failed, 2 on an error.
pub open spec fn spec_ci_exit_code(r: OverallResult) -> i32 {
    match r {
        OverallResult::Pass => 0,
        OverallResult::Fail => 1,
        OverallResult::Partial => 1,
        OverallResult::Error => 2,
    }
}

/// The exit code of a CI run.
pub fn ci_exit_code(r: OverallResult) -> (c: i32)
    ensures
        c == spec_ci_exit_code(r),
{
    match r {
        OverallResult::Pass => 0,
        OverallResult::Fail => 1,
        OverallResult::Partial => 1,
        OverallResult::Error => 2,
    }
}

/// The name of a verdict as the results show it.
pub open spec fn spec_result_name(r: OverallResult) -> Seq<char> {
    match r {
        OverallResult::Pass => "Pass"@,
        OverallResult::Fail => "Fail"@,
        OverallResult::Partial => "Partial"@,
        OverallResult::Error => "Error"@,
    }
}

/// The lines that close a run: the verdict, the step counts and the
/// duration.
pub open spec fn spec_results_text(r: TestReport) -> Seq<char> {
    "  RESULTS: "@ + spec_result_name(r.summary.result) + "\n  Steps: "@ + spec_decimal(
        r.summary.total_steps as nat,
    ) + " total | "@ + spec_decimal(r.summary.passed as nat) + " passed | "@ + spec_decimal(
        r.summary.failed as nat,
    ) + " failed | "@ + spec_decimal(r.summary.errors as nat) + " errors\n  Duration: "@
        + spec_seconds_text(r.metadata.duration_seconds as int) + "s"@
}

/// The lines that close a run.
pub fn results_text(r: &TestReport) -> (t: String)
    requires
        -0x20000000000000 <= r.metadata.duration_seconds <= 0x20000000000000,
    ensures
        t@ == spec_results_text(*r),
{
    let mut m: Vec<char> = Vec::new();
    extend_str(&mut m, "  RESULTS: ");
    let name = match r.summary.result {
        OverallResult::Pass => "Pass",
        OverallResult::Fail => "Fail",
        OverallResult::Partial => "Partial",
        OverallResult::Error => "Error",
    };
    extend_str(&mut m, name);
    extend_str(&mut m, "\n  Steps: ");
    let a = decimal(r.summary.total_steps as u64);
    extend_chars(&mut m, a.as_slice());
    extend_str(&mut m, " total | ");
    let b = decimal(r.summary.passed as u64);
    extend_chars(&mut m, b.as_slice());
    extend_str(&mut m, " passed | ");
    let c = decimal(r.summary.failed as u64);
    extend_chars(&mut m, c.as_slice());
    extend_str(&mut m, " failed | ");
    let d = decimal(r.summary.errors as u64);
    extend_chars(&mut m, d.as_slice());
    extend_str(&mut m, " errors\n  Duration: ");
    crate::report::page::push_seconds(&mut m, r.metadata.duration_seconds);
    extend_str(&mut m, "s");
    assert(m@ =~= spec_results_text(*r));
    string_from_chars(m.as_slice())
}

} // verus!
