//! Collecting node results during a run and summarizing them.

pub mod html;
pub mod page;

use vstd::prelude::*;

use crate::assertions::Assertion;
use crate::blueprint::nodes::{clone_opt_string, same_result, NodeResult, NodeStatus};
use page::{duration_ok, utc_in_range};

verus! {

/// `chrono::Utc::now().timestamp_millis()`: the current time in milliseconds
/// since the Unix epoch. Which time it is, is the clock's and is not stated;
/// only that it is a time of chrono's calendar not before the epoch
/// (`Utc::now` panics on a clock set before the epoch, and unwraps the
/// `DateTime` it builds, so what it returns lies within `MIN_UTC..=MAX_UTC`).
#[verifier::external_body]
fn now_millis() -> (r: i64)
    ensures
        0 <= r,
        utc_in_range(r as int),
{
    chrono::Utc::now().timestamp_millis()
}

/// `uuid::Uuid::new_v4().to_string()`: a fresh random identifier in the
/// hyphenated form, 36 characters long. Nothing else is stated: it is drawn
/// at random.
#[verifier::external_body]
fn new_report_id() -> (r: String)
    ensures
        r@.len() == 36,
{
    uuid::Uuid::new_v4().to_string()
}

/// Collects node results during blueprint execution.
pub struct ReportCollector {
    pub target_name: String,
    pub blueprint_name: String,
    pub test_spec: Option<String>,
    pub steps: Vec<NodeResult>,
    /// When collection started, in milliseconds since the Unix epoch.
    pub start_time: i64,
}

/// The overall verdict of a run.
#[derive(Debug, Clone, Copy, PartialEq, Eq, Structural)]
pub enum OverallResult {
    Pass,
    Fail,
    Partial,
    Error,
}

/// The complete report of a run.
#[derive(Debug)]
pub struct TestReport {
    pub metadata: ReportMetadata,
    pub summary: ReportSummary,
    pub steps: Vec<NodeResult>,
}

/// What the report records about the run itself.
#[derive(Debug)]
pub struct ReportMetadata {
    pub report_id: String,
    /// When the report was made, in milliseconds since the Unix epoch.
    pub timestamp_millis: i64,
    /// Whole seconds between the start of collection and the report.
    pub duration_seconds: i64,
    pub target_name: String,
    pub blueprint_name: String,
    pub test_spec: Option<String>,
    pub agent_version: String,
}

/// Counts over the steps and assertions of a run.
#[derive(Debug, Clone)]
pub struct ReportSummary {
    pub total_steps: usize,
    pub passed: usize,
    pub failed: usize,
    pub errors: usize,
    pub skipped: usize,
    pub result: OverallResult,
    pub assertions_total: usize,
    pub assertions_passed: usize,
    pub assertions_failed: usize,
}

/// The number of steps with outcome `st`.
pub open spec fn count_status(steps: Seq<NodeResult>, st: NodeStatus) -> nat
    decreases steps.len(),
{
    if steps.len() == 0 {
        0
    } else {
        count_status(steps.drop_last(), st) + if steps.last().status == st {
            1nat
        } else {
            0nat
        }
    }
}

/// The pass flags of every assertion of every step, step by step.
pub open spec fn assertion_flags(steps: Seq<NodeResult>) -> Seq<bool>
    decreases steps.len(),
{
    if steps.len() == 0 {
        Seq::empty()
    } else {
        assertion_flags(steps.drop_last()) + steps.last().assertions@.map_values(
            |a: Assertion| a.passed,
        )
    }
}

/// The number of `true` (or `false`) flags.
pub open spec fn count_flags(fs: Seq<bool>, v: bool) -> nat
    decreases fs.len(),
{
    if fs.len() == 0 {
        0
    } else {
        count_flags(fs.drop_last(), v) + if fs.last() == v {
            1nat
        } else {
            0nat
        }
    }
}

/// The verdict of a run: pass without failures or errors; partial when
/// something failed but some step passed; fail otherwise.
pub open spec fn overall(passed: nat, failed: nat, errors: nat) -> OverallResult {
    if failed == 0 && errors == 0 {
        OverallResult::Pass
    } else if passed > 0 {
        OverallResult::Partial
    } else {
        OverallResult::Fail
    }
}

/// The summary of the steps `steps`.
pub open spec fn summary_of(steps: Seq<NodeResult>) -> ReportSummary {
    let flags = assertion_flags(steps);
    ReportSummary {
        total_steps: steps.len() as usize,
        passed: count_status(steps, NodeStatus::Pass) as usize,
        failed: count_status(steps, NodeStatus::Fail) as usize,
        errors: count_status(steps, NodeStatus::Error) as usize,
        skipped: count_status(steps, NodeStatus::Skip) as usize,
        result: overall(
            count_status(steps, NodeStatus::Pass),
            count_status(steps, NodeStatus::Fail),
            count_status(steps, NodeStatus::Error),
        ),
        assertions_total: flags.len() as usize,
        assertions_passed: count_flags(flags, true) as usize,
        assertions_failed: count_flags(flags, false) as usize,
    }
}

/// A status is counted among the steps exactly when some step has it.
proof fn lemma_count_status_some(steps: Seq<NodeResult>, st: NodeStatus)
    ensures
        count_status(steps, st) > 0 <==> exists|i: int| 0 <= i < steps.len() && (#[trigger] steps[i]).status == st,
    decreases steps.len(),
{
    if steps.len() > 0 {
        let d = steps.drop_last();
        lemma_count_status_some(d, st);
        if exists|i: int| 0 <= i < d.len() && (#[trigger] d[i]).status == st {
            let i = choose|i: int| 0 <= i < d.len() && (#[trigger] d[i]).status == st;
            assert(steps[i] == d[i]);
        }
        if exists|i: int| 0 <= i < steps.len() && (#[trigger] steps[i]).status == st {
            let i = choose|i: int| 0 <= i < steps.len() && (#[trigger] steps[i]).status == st;
            if i < steps.len() - 1 {
                assert(d[i] == steps[i]);
            }
        }
    }
}

/// The verdict of a run: pass when no step failed or erred; partial when
/// some step failed or erred and some step passed; fail when some step failed
/// or erred and none passed.
pub proof fn law_verdict(steps: Seq<NodeResult>)
    ensures
        (forall|i: int| 0 <= i < steps.len() ==> !(#[trigger] steps[i]).status.is_failure())
            ==> summary_of(steps).result == OverallResult::Pass,
        (exists|i: int| 0 <= i < steps.len() && (#[trigger] steps[i]).status.is_failure()) && (exists|j: int|
            0 <= j < steps.len() && (#[trigger] steps[j]).status == NodeStatus::Pass)
            ==> summary_of(steps).result == OverallResult::Partial,
        (exists|i: int| 0 <= i < steps.len() && (#[trigger] steps[i]).status.is_failure()) && (forall|j: int|
            0 <= j < steps.len() ==> (#[trigger] steps[j]).status != NodeStatus::Pass)
            ==> summary_of(steps).result == OverallResult::Fail,
{
    lemma_count_status_some(steps, NodeStatus::Pass);
    lemma_count_status_some(steps, NodeStatus::Fail);
    lemma_count_status_some(steps, NodeStatus::Error);
    if exists|i: int| 0 <= i < steps.len() && (#[trigger] steps[i]).status.is_failure() {
        let i = choose|i: int| 0 <= i < steps.len() && (#[trigger] steps[i]).status.is_failure();
        assert(steps[i].status == NodeStatus::Fail || steps[i].status == NodeStatus::Error);
    }
    if forall|i: int| 0 <= i < steps.len() ==> !(#[trigger] steps[i]).status.is_failure() {
        if count_status(steps, NodeStatus::Fail) > 0 {
            let i = choose|i: int| 0 <= i < steps.len() && (#[trigger] steps[i]).status == NodeStatus::Fail;
            assert(steps[i].status.is_failure());
        }
        if count_status(steps, NodeStatus::Error) > 0 {
            let i = choose|i: int| 0 <= i < steps.len() && (#[trigger] steps[i]).status == NodeStatus::Error;
            assert(steps[i].status.is_failure());
        }
    }
}

proof fn lemma_count_status_le(steps: Seq<NodeResult>, st: NodeStatus)
    ensures
        count_status(steps, st) <= steps.len(),
    decreases steps.len(),
{
    if steps.len() > 0 {
        lemma_count_status_le(steps.drop_last(), st);
    }
}

proof fn lemma_count_flags_le(fs: Seq<bool>, v: bool)
    ensures
        count_flags(fs, v) <= fs.len(),
    decreases fs.len(),
{
    if fs.len() > 0 {
        lemma_count_flags_le(fs.drop_last(), v);
    }
}

/// The step outcomes partition the steps: every step is counted exactly once
/// among passed, failed, errors and skipped.
pub proof fn law_status_counts_partition(steps: Seq<NodeResult>)
    ensures
        count_status(steps, NodeStatus::Pass) + count_status(steps, NodeStatus::Fail)
            + count_status(steps, NodeStatus::Error) + count_status(steps, NodeStatus::Skip)
            == steps.len(),
    decreases steps.len(),
{
    if steps.len() > 0 {
        law_status_counts_partition(steps.drop_last());
    }
}

/// Every assertion counts as either passed or failed.
pub proof fn law_assertion_counts_partition(fs: Seq<bool>)
    ensures
        count_flags(fs, true) + count_flags(fs, false) == fs.len(),
    decreases fs.len(),
{
    if fs.len() > 0 {
        law_assertion_counts_partition(fs.drop_last());
    }
}

impl ReportCollector {
    /// An empty collection for a target and blueprint, started now.
    pub fn new(target_name: &str, blueprint_name: &str) -> (r: ReportCollector)
        ensures
            r.target_name@ == target_name@,
            r.blueprint_name@ == blueprint_name@,
            r.test_spec is None,
            r.steps@.len() == 0,
            0 <= r.start_time,
            utc_in_range(r.start_time as int),
    {
        ReportCollector {
            target_name: String::from_str(target_name),
            blueprint_name: String::from_str(blueprint_name),
            test_spec: None,
            steps: Vec::new(),
            start_time: now_millis(),
        }
    }

    /// Appends the result of a node.
    pub fn record_step(&mut self, result: NodeResult)
        ensures
            final(self).steps@ == old(self).steps@.push(result),
            final(self).target_name == old(self).target_name,
            final(self).blueprint_name == old(self).blueprint_name,
            final(self).test_spec == old(self).test_spec,
            final(self).start_time == old(self).start_time,
    {
        self.steps.push(result);
    }

    /// The counts over the recorded steps and their assertions, and the verdict.
    pub fn summary(&self) -> (s: ReportSummary)
        requires
            assertion_flags(self.steps@).len() <= usize::MAX,
        ensures
            s == summary_of(self.steps@),
    {
        let ghost steps = self.steps@;
        let mut passed: usize = 0;
        let mut failed: usize = 0;
        let mut errors: usize = 0;
        let mut skipped: usize = 0;
        let mut a_total: usize = 0;
        let mut a_passed: usize = 0;
        let mut a_failed: usize = 0;
        let mut i: usize = 0;
        assert(steps.take(0) =~= Seq::<NodeResult>::empty());
        while i < self.steps.len()
            invariant
                i <= steps.len(),
                steps == self.steps@,
                assertion_flags(steps).len() <= usize::MAX,
                passed == count_status(steps.take(i as int), NodeStatus::Pass),
                failed == count_status(steps.take(i as int), NodeStatus::Fail),
                errors == count_status(steps.take(i as int), NodeStatus::Error),
                skipped == count_status(steps.take(i as int), NodeStatus::Skip),
                a_total == assertion_flags(steps.take(i as int)).len(),
                a_passed == count_flags(assertion_flags(steps.take(i as int)), true),
                a_failed == count_flags(assertion_flags(steps.take(i as int)), false),
            decreases steps.len() - i,
        {
            let ghost pre = steps.take(i as int);
            let ghost cur = steps.take(i + 1);
            assert(cur.drop_last() =~= pre);
            assert(cur.last() == steps[i as int]);
            proof {
                lemma_count_status_le(pre, NodeStatus::Pass);
                lemma_count_status_le(pre, NodeStatus::Fail);
                lemma_count_status_le(pre, NodeStatus::Error);
                lemma_count_status_le(pre, NodeStatus::Skip);
                lemma_flags_prefix_le(steps, i as int + 1);
            }
            let step = &self.steps[i];
            match step.status {
                NodeStatus::Pass => passed += 1,
                NodeStatus::Fail => failed += 1,
                NodeStatus::Error => errors += 1,
                NodeStatus::Skip => skipped += 1,
            }
            let ghost before = assertion_flags(pre);
            let ghost fl = step.assertions@.map_values(|a: Assertion| a.passed);
            let mut k: usize = 0;
            assert(fl.take(0) =~= Seq::<bool>::empty());
            assert(before + fl.take(0) =~= before);
            while k < step.assertions.len()
                invariant
                    k <= fl.len(),
                    fl == step.assertions@.map_values(|a: Assertion| a.passed),
                    (before + fl).len() <= usize::MAX,
                    a_total == (before + fl.take(k as int)).len(),
                    a_passed == count_flags(before + fl.take(k as int), true),
                    a_failed == count_flags(before + fl.take(k as int), false),
                decreases fl.len() - k,
            {
                let ghost t = before + fl.take(k as int);
                assert((before + fl.take(k + 1)).drop_last() =~= t);
                proof {
                    lemma_count_flags_le(t, true);
                    lemma_count_flags_le(t, false);
                }
                a_total += 1;
                if step.assertions[k].passed {
                    a_passed += 1;
                } else {
                    a_failed += 1;
                }
                k += 1;
            }
            assert(fl.take(fl.len() as int) =~= fl);
            i += 1;
        }
        assert(steps.take(steps.len() as int) =~= steps);
        let result = if failed == 0 && errors == 0 {
            OverallResult::Pass
        } else if passed > 0 {
            OverallResult::Partial
        } else {
            OverallResult::Fail
        };
        ReportSummary {
            total_steps: self.steps.len(),
            passed,
            failed,
            errors,
            skipped,
            result,
            assertions_total: a_total,
            assertions_passed: a_passed,
            assertions_failed: a_failed,
        }
    }
}

proof fn lemma_flags_prefix_le(steps: Seq<NodeResult>, n: int)
    requires
        0 <= n <= steps.len(),
    ensures
        assertion_flags(steps.take(n)).len() <= assertion_flags(steps).len(),
    decreases steps.len(),
{
    if n < steps.len() {
        assert(steps.drop_last().take(n) =~= steps.take(n));
        lemma_flags_prefix_le(steps.drop_last(), n);
    } else {
        assert(steps.take(n) =~= steps);
    }
}

/// Whole seconds elapsed from `start` to `end` (milliseconds), truncated
/// toward zero as `TimeDelta::num_seconds` counts them.
pub open spec fn whole_seconds(start: int, end: int) -> int {
    let d = end - start;
    if d >= 0 {
        d / 1000
    } else {
        -((-d) / 1000)
    }
}

impl ReportCollector {
    /// The final report: a fresh id, the time now, the whole seconds since
    /// collection started, the names, the summary of the recorded steps and
    /// the steps themselves. `agent_version` is the version of the tool that
    /// made the report.
    pub fn finalize(&self, agent_version: &str) -> (r: TestReport)
        requires
            assertion_flags(self.steps@).len() <= usize::MAX,
        ensures
            r.summary == summary_of(self.steps@),
            r.steps@.len() == self.steps@.len(),
            forall|i: int| 0 <= i < self.steps@.len() ==> same_result(#[trigger] r.steps@[i], self.steps@[i]),
            r.metadata.report_id@.len() == 36,
            r.metadata.duration_seconds == whole_seconds(
                self.start_time as int,
                r.metadata.timestamp_millis as int,
            ),
            r.metadata.target_name@ == self.target_name@,
            r.metadata.blueprint_name@ == self.blueprint_name@,
            r.metadata.test_spec == self.test_spec,
            r.metadata.agent_version@ == agent_version@,
            0 <= r.metadata.timestamp_millis,
            utc_in_range(r.metadata.timestamp_millis as int),
            0 <= self.start_time && utc_in_range(self.start_time as int) ==> duration_ok(r.metadata),
    {
        let summary = self.summary();
        let now = now_millis();
        let d: i128 = now as i128 - self.start_time as i128;
        let secs: i128 = if d >= 0 {
            d / 1000
        } else {
            -((-d) / 1000)
        };
        let test_spec = clone_opt_string(&self.test_spec);
        let mut steps: Vec<NodeResult> = Vec::new();
        let mut i: usize = 0;
        while i < self.steps.len()
            invariant
                i <= self.steps@.len(),
                steps@.len() == i,
                forall|j: int| 0 <= j < i ==> same_result(#[trigger] steps@[j], self.steps@[j]),
            decreases self.steps@.len() - i,
        {
            steps.push(self.steps[i].clone());
            i += 1;
        }
        TestReport {
            metadata: ReportMetadata {
                report_id: new_report_id(),
                timestamp_millis: now,
                duration_seconds: secs as i64,
                target_name: self.target_name.clone(),
                blueprint_name: self.blueprint_name.clone(),
                test_spec,
                agent_version: String::from_str(agent_version),
            },
            summary,
            steps,
        }
    }
}

} // verus!
