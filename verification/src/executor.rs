//! Judging of exercise executions: trimmed output comparison, the
//! outcome taxonomy of a toolchain invocation, and the verification
//! session that aggregates per-case verdicts.
//!
//! The engine never spawns processes itself; the surrounding program runs
//! each test case (one blocking invocation at a time) and hands the
//! outcomes back, and everything that decides pass or fail is verified
//! here.

use vstd::prelude::*;
use crate::content::Exercise;
use crate::text::{bytes_eq, trim, trim_spec};

verus! {

pub struct Executor;

/// The captured standard output of a successful execution.
pub struct ExecutionResult {
    pub output: Vec<u8>,
}

/// The outcome of one toolchain invocation: captured stdout on success,
/// or a tagged failure with its diagnostic text.
pub enum ExecutionOutcome {
    Stdout(Vec<u8>),
    BuildFailed(Vec<u8>),
    RuntimeFailed(Vec<u8>),
    MissingFile,
}

impl Executor {
    /// Output comparison: equality after trimming leading and trailing
    /// whitespace on both sides, and nothing else.
    pub fn compare_output(actual: &[u8], expected: &[u8]) -> (r: bool)
        ensures
            r == (trim_spec(actual@) == trim_spec(expected@)),
    {
        bytes_eq(trim(actual), trim(expected))
    }
}

/// Maps a finished process of the direct-compile or interpreted families
/// to an outcome: captured stdout when the exit status is success, the
/// captured stderr as a runtime failure otherwise.
pub fn classify_run(success: bool, stdout: Vec<u8>, stderr: Vec<u8>) -> (r: ExecutionOutcome)
    ensures
        success ==> (r matches ExecutionOutcome::Stdout(o) && o@ == stdout@),
        !success ==> (r matches ExecutionOutcome::RuntimeFailed(e) && e@ == stderr@),
{
    if success {
        ExecutionOutcome::Stdout(stdout)
    } else {
        ExecutionOutcome::RuntimeFailed(stderr)
    }
}

/// Whether an outcome with this expected output counts as a pass: only a
/// successful execution whose trimmed stdout equals the trimmed
/// expectation.
pub open spec fn spec_case_passed(o: ExecutionOutcome, expected: Seq<u8>) -> bool {
    match o {
        ExecutionOutcome::Stdout(s) => trim_spec(s@) == trim_spec(expected),
        _ => false,
    }
}

/// One judged test case.
pub struct CaseResult {
    pub index: usize,
    pub outcome: ExecutionOutcome,
    pub passed: bool,
}

pub struct VerificationSession;

impl VerificationSession {
    /// Judges one outcome against an expected output.
    pub fn judge_case(outcome: &ExecutionOutcome, expected: &[u8]) -> (r: bool)
        ensures
            r == spec_case_passed(*outcome, expected@),
    {
        match outcome {
            ExecutionOutcome::Stdout(s) => Executor::compare_output(s.as_slice(), expected),
            _ => false,
        }
    }

    /// Aggregates the outcomes of a whole exercise run: one outcome per
    /// test case (or a single comparison-free outcome when the exercise
    /// has no test cases), judged independently — a failing case never
    /// hides its siblings.  The overall verdict is a pass exactly when
    /// every case passes.
    pub fn run(exercise: &Exercise, outcomes: Vec<ExecutionOutcome>) -> (r: (
        bool,
        Vec<CaseResult>,
    ))
        requires
            exercise@.test_cases.len() > 0 ==> outcomes@.len() == exercise@.test_cases.len(),
            exercise@.test_cases.len() == 0 ==> outcomes@.len() == 1,
        ensures
            r.1@.len() == outcomes@.len(),
            forall|i: int|
                0 <= i < r.1@.len() ==> (#[trigger] r.1@[i]).index == i && r.1@[i].outcome
                    == outcomes@[i],
            exercise@.test_cases.len() > 0 ==> forall|i: int|
                0 <= i < r.1@.len() ==> (#[trigger] r.1@[i]).passed == spec_case_passed(
                    outcomes@[i],
                    exercise@.test_cases[i].output,
                ),
            exercise@.test_cases.len() == 0 ==> r.1@[0].passed == (
            outcomes@[0] matches ExecutionOutcome::Stdout(_)),
            r.0 == (forall|i: int| 0 <= i < r.1@.len() ==> (#[trigger] r.1@[i]).passed),
    {
        let ghost ov = outcomes@;
        let mut results: Vec<CaseResult> = Vec::new();
        let mut all_passed: bool = true;
        let mut rest = outcomes;
        let n: usize = rest.len();
        let no_cases: bool = exercise.test_cases.len() == 0;
        proof {
            assert(rest@ == ov);
            assert(n == ov.len());
            assert(rest@ =~= ov.skip(0));
        }
        let mut i: usize = 0;
        while i < n
            invariant
                i <= n,
                ov.len() == n,
                rest@.len() == n - i,
                results@.len() == i,
                no_cases == (exercise@.test_cases.len() == 0),
                no_cases ==> n == 1,
                !no_cases ==> n == exercise@.test_cases.len(),
                rest@ == ov.skip(i as int),
                forall|k: int|
                    0 <= k < i ==> (#[trigger] results@[k]).index == k && results@[k].outcome
                        == ov[k],
                !no_cases ==> forall|k: int|
                    0 <= k < i ==> (#[trigger] results@[k]).passed == spec_case_passed(
                        ov[k],
                        exercise@.test_cases[k].output,
                    ),
                no_cases ==> forall|k: int|
                    0 <= k < i ==> (#[trigger] results@[k]).passed == (
                    ov[k] matches ExecutionOutcome::Stdout(_)),
                all_passed == (forall|k: int| 0 <= k < i ==> (#[trigger] results@[k]).passed),
            decreases n - i,
        {
            let ghost pre = rest@;
            let outcome: ExecutionOutcome = rest.remove(0);
            proof {
                assert(pre == ov.skip(i as int));
                assert(outcome == pre[0]);
                assert(ov.skip(i as int)[0] == ov[i as int]);
                assert(outcome == ov[i as int]);
                assert(rest@ == pre.remove(0));
                assert forall|k: int| 0 <= k < rest@.len() implies rest@[k] == ov[i + 1
                    + k] by {
                    assert(rest@[k] == pre[k + 1]);
                    assert(pre[k + 1] == ov.skip(i as int)[k + 1]);
                }
                assert(rest@ =~= ov.skip(i + 1));
            }
            let passed: bool = if no_cases {
                match &outcome {
                    ExecutionOutcome::Stdout(_) => true,
                    _ => false,
                }
            } else {
                Self::judge_case(&outcome, exercise.test_cases[i].output.as_slice())
            };
            let ghost was_all = all_passed;
            let ghost rprev = results@;
            if !passed {
                all_passed = false;
            }
            results.push(CaseResult { index: i, outcome, passed });
            proof {
                assert(results@[i as int].passed == passed);
                if !was_all {
                    let k0 = choose|k: int| 0 <= k < i && !(#[trigger] rprev[k]).passed;
                    assert(!(rprev[k0]).passed);
                    assert(results@[k0] == rprev[k0]);
                    assert(!(results@[k0]).passed);
                }
            }
            i += 1;
        }
        (all_passed, results)
    }
}

} // verus!
