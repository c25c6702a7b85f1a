//! Structured assertion records produced by the assertion tools of agentic steps.

use vstd::prelude::*;

verus! {

/// The kind of check an assertion made.
#[derive(Debug, Clone, Copy, PartialEq, Eq, Structural)]
pub enum AssertionType {
    Visible,
    TextContains,
    ElementExists,
    UrlMatches,
    Custom,
}

/// A single assertion result.
#[derive(Debug)]
pub struct Assertion {
    pub assertion_type: AssertionType,
    /// What was being checked (element description, URL, ...).
    pub target: String,
    /// What was expected.
    pub expected: String,
    /// What was actually found.
    pub actual: String,
    pub passed: bool,
    /// Screenshot taken at the moment of the assertion, if any.
    pub screenshot_path: Option<String>,
}

/// The label of a pass/fail outcome.
pub open spec fn status_label_of(passed: bool) -> Seq<char> {
    if passed {
        "PASS"@
    } else {
        "FAIL"@
    }
}

impl Clone for Assertion {
    fn clone(&self) -> (r: Self)
        ensures
            r == *self,
    {
        Assertion {
            assertion_type: self.assertion_type,
            target: self.target.clone(),
            expected: self.expected.clone(),
            actual: self.actual.clone(),
            passed: self.passed,
            screenshot_path: crate::blueprint::nodes::clone_opt_string(&self.screenshot_path),
        }
    }
}

impl Assertion {
    /// `"PASS"` for a passed assertion, `"FAIL"` otherwise.
    pub fn status_label(&self) -> (r: &'static str)
        ensures
            r@ == status_label_of(self.passed),
    {
        if self.passed {
            "PASS"
        } else {
            "FAIL"
        }
    }
}

} // verus!
