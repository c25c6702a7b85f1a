//! A natural-language test specification written as markdown: the title is a
//! `# ` heading, each scenario a `- ` or `* ` bullet.

use vstd::prelude::*;

use crate::text::{
    chars_of, decimal, extend_chars, extend_str, lines, spec_decimal, spec_lines, spec_starts_with, spec_trim, spec_trim_start_matches, starts_with,
    string_from_chars, trim, trim_start_matches,
};

verus! {

/// A natural-language test specification parsed from markdown.
#[derive(Debug, Clone)]
pub struct TestSpec {
    pub title: String,
    pub scenarios: Vec<TestScenario>,
}

/// One scenario of a test specification.
#[derive(Debug, Clone)]
pub struct TestScenario {
    pub description: String,
}

/// Reading a test specification failed.
#[derive(Debug, Clone)]
pub struct SpecError {
    pub message: String,
}

/// The text of a heading line, if the trimmed line is one.
pub open spec fn heading_text(line: Seq<char>) -> Option<Seq<char>> {
    let t = spec_trim(line);
    if spec_starts_with(t, "# "@) {
        Some(spec_trim_start_matches(t, "# "@))
    } else {
        None
    }
}

/// The description of a bullet line, if the trimmed line is a bullet.
pub open spec fn bullet_text(line: Seq<char>) -> Option<Seq<char>> {
    let t = spec_trim(line);
    if !spec_starts_with(t, "# "@) && (spec_starts_with(t, "- "@) || spec_starts_with(t, "* "@)) {
        Some(spec_trim_start_matches(spec_trim_start_matches(t, "- "@), "* "@))
    } else {
        None
    }
}

/// The text of the last heading among `ls`, or the empty text.
pub open spec fn last_heading(ls: Seq<Seq<char>>) -> Seq<char>
    decreases ls.len(),
{
    if ls.len() == 0 {
        Seq::empty()
    } else {
        match heading_text(ls.last()) {
            Some(t) => t,
            None => last_heading(ls.drop_last()),
        }
    }
}

/// The non-empty bullet descriptions among `ls`, in order.
pub open spec fn bullets(ls: Seq<Seq<char>>) -> Seq<Seq<char>>
    decreases ls.len(),
{
    if ls.len() == 0 {
        Seq::empty()
    } else {
        let prev = bullets(ls.drop_last());
        match bullet_text(ls.last()) {
            Some(d) => if d.len() > 0 {
                prev.push(d)
            } else {
                prev
            },
            None => prev,
        }
    }
}

/// The title a markdown text yields: its last heading, or a fixed default.
pub open spec fn markdown_title(content: Seq<char>) -> Seq<char> {
    let t = last_heading(spec_lines(content));
    if t.len() == 0 {
        "Unnamed Test Spec"@
    } else {
        t
    }
}

/// The scenario descriptions a markdown text yields.
pub open spec fn markdown_scenarios(content: Seq<char>) -> Seq<Seq<char>> {
    bullets(spec_lines(content))
}

/// The numbered scenario list: one line `"{n}. {description}"` per scenario,
/// counting from 1.
pub open spec fn numbered(ds: Seq<Seq<char>>) -> Seq<char>
    decreases ds.len(),
{
    if ds.len() == 0 {
        Seq::empty()
    } else {
        numbered(ds.drop_last()) + spec_decimal(ds.len()) + ". "@ + ds.last() + "\n"@
    }
}

/// The instructions that close every scenario prompt.
pub open spec fn prompt_tail() -> Seq<char> {
    "\nFor each scenario:\n"@ + "- Navigate to the relevant page\n"@
        + "- Perform the described actions\n"@
        + "- Use assert tools to validate expected outcomes\n"@
        + "- Take a screenshot at each important step\n"@
        + "- Log pass/fail for each scenario with log_step\n"@
}

/// The prompt an agent receives for a test specification.
pub open spec fn prompt_text(title: Seq<char>, ds: Seq<Seq<char>>) -> Seq<char> {
    "Execute the following test scenarios for '"@ + title + "':\n\n"@ + numbered(ds)
        + prompt_tail()
}

impl TestSpec {
    /// The scenario descriptions, in order.
    pub open spec fn descriptions(self) -> Seq<Seq<char>> {
        self.scenarios@.map_values(|s: TestScenario| s.description@)
    }

    /// Parses a markdown text into a test specification; this never fails.
    pub fn from_markdown(content: &str) -> (r: Result<TestSpec, SpecError>)
        ensures
            r is Ok,
            r->Ok_0.title@ == markdown_title(content@),
            r->Ok_0.descriptions() == markdown_scenarios(content@),
    {
        let chars = chars_of(content);
        let ls = lines(chars.as_slice());
        let ghost lv = ls@.map_values(|l: Vec<char>| l@);
        let hash = chars_of("# ");
        let dash = chars_of("- ");
        let star = chars_of("* ");
        let mut title: Vec<char> = Vec::new();
        let mut scenarios: Vec<TestScenario> = Vec::new();
        let mut i: usize = 0;
        assert(lv.take(0) =~= Seq::<Seq<char>>::empty());
        while i < ls.len()
            invariant
                i <= ls@.len(),
                lv == ls@.map_values(|l: Vec<char>| l@),
                lv == spec_lines(content@),
                hash@ == "# "@,
                dash@ == "- "@,
                star@ == "* "@,
                title@ == last_heading(lv.take(i as int)),
                scenarios@.map_values(|s: TestScenario| s.description@) == bullets(
                    lv.take(i as int),
                ),
            decreases ls@.len() - i,
        {
            let t = trim(ls[i].as_slice());
            let ghost prev = scenarios@;
            assert(lv.take(i + 1).drop_last() =~= lv.take(i as int));
            assert(lv.take(i + 1).last() == ls@[i as int]@);
            if starts_with(t.as_slice(), hash.as_slice()) {
                title = trim_start_matches(t.as_slice(), hash.as_slice());
            } else if starts_with(t.as_slice(), dash.as_slice()) || starts_with(
                t.as_slice(),
                star.as_slice(),
            ) {
                let d1 = trim_start_matches(t.as_slice(), dash.as_slice());
                let desc = trim_start_matches(d1.as_slice(), star.as_slice());
                if desc.len() > 0 {
                    scenarios.push(TestScenario { description: string_from_chars(desc.as_slice()) });
                    assert(scenarios@.map_values(|s: TestScenario| s.description@) =~= prev.map_values(
                        |s: TestScenario| s.description@,
                    ).push(desc@));
                }
            }
            i += 1;
        }
        assert(lv.take(ls@.len() as int) =~= lv);
        let title = if title.len() == 0 {
            String::from_str("Unnamed Test Spec")
        } else {
            string_from_chars(title.as_slice())
        };
        Ok(TestSpec { title, scenarios })
    }

    /// The prompt that asks an agent to carry out every scenario.
    pub fn to_prompt(&self) -> (r: String)
        ensures
            r@ == prompt_text(self.title@, self.descriptions()),
    {
        let ghost ds = self.descriptions();
        let mut r: Vec<char> = Vec::new();
        extend_str(&mut r, "Execute the following test scenarios for '");
        extend_str(&mut r, self.title.as_str());
        extend_str(&mut r, "':\n\n");
        let ghost head = r@;
        let mut i: usize = 0;
        assert(ds.take(0) =~= Seq::<Seq<char>>::empty());
        while i < self.scenarios.len()
            invariant
                i <= self.scenarios@.len(),
                ds == self.descriptions(),
                r@ == head + numbered(ds.take(i as int)),
            decreases self.scenarios@.len() - i,
        {
            let num = decimal((i + 1) as u64);
            extend_chars(&mut r, num.as_slice());
            extend_str(&mut r, ". ");
            extend_str(&mut r, self.scenarios[i].description.as_str());
            extend_str(&mut r, "\n");
            assert(ds.take(i + 1).drop_last() =~= ds.take(i as int));
            i += 1;
        }
        assert(ds.take(self.scenarios@.len() as int) =~= ds);
        extend_str(&mut r, "\nFor each scenario:\n");
        extend_str(&mut r, "- Navigate to the relevant page\n");
        extend_str(&mut r, "- Perform the described actions\n");
        extend_str(&mut r, "- Use assert tools to validate expected outcomes\n");
        extend_str(&mut r, "- Take a screenshot at each important step\n");
        extend_str(&mut r, "- Log pass/fail for each scenario with log_step\n");
        string_from_chars(r.as_slice())
    }
}

} // verus!
