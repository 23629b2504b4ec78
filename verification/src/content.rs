//! The structured lesson content produced by recovery or synthesis.
//!
//! All text fields hold UTF-8 bytes.  The invariants the engine guarantees
//! after recovery or synthesis are expressed by [`GeneratedContent::wf`]:
//! at least two code examples, at least one exercise, and at least one
//! test case in every exercise.

use vstd::prelude::*;
use crate::text::{copy_bytes, trim_spec};

verus! {

/// The sequence of byte-string views of a sequence of byte vectors.
pub open spec fn texts_view(v: Seq<Vec<u8>>) -> Seq<Seq<u8>> {
    v.map_values(|x: Vec<u8>| x@)
}

/// The byte-string view of an optional byte vector.
pub open spec fn opt_text_view(o: Option<Vec<u8>>) -> Option<Seq<u8>> {
    match o {
        None => None,
        Some(v) => Some(v@),
    }
}

pub struct CodeExample {
    pub code: Vec<u8>,
    pub explanation: Vec<u8>,
}

pub struct TestCase {
    pub input: Vec<u8>,
    pub output: Vec<u8>,
}

pub struct Exercise {
    pub title: Vec<u8>,
    pub description: Vec<u8>,
    pub hints: Vec<Vec<u8>>,
    pub example_input: Option<Vec<u8>>,
    pub example_output: Option<Vec<u8>>,
    pub test_cases: Vec<TestCase>,
}

pub struct GeneratedContent {
    pub concept: Vec<u8>,
    pub step_by_step: Vec<Vec<u8>>,
    pub code_examples: Vec<CodeExample>,
    pub syntax_guide: Vec<u8>,
    pub common_patterns: Vec<Vec<u8>>,
    pub exercises: Vec<Exercise>,
}

pub ghost struct CodeExampleV {
    pub code: Seq<u8>,
    pub explanation: Seq<u8>,
}

pub ghost struct TestCaseV {
    pub input: Seq<u8>,
    pub output: Seq<u8>,
}

pub ghost struct ExerciseV {
    pub title: Seq<u8>,
    pub description: Seq<u8>,
    pub hints: Seq<Seq<u8>>,
    pub example_input: Option<Seq<u8>>,
    pub example_output: Option<Seq<u8>>,
    pub test_cases: Seq<TestCaseV>,
}

pub ghost struct GeneratedContentV {
    pub concept: Seq<u8>,
    pub step_by_step: Seq<Seq<u8>>,
    pub code_examples: Seq<CodeExampleV>,
    pub syntax_guide: Seq<u8>,
    pub common_patterns: Seq<Seq<u8>>,
    pub exercises: Seq<ExerciseV>,
}

impl View for CodeExample {
    type V = CodeExampleV;

    open spec fn view(&self) -> CodeExampleV {
        CodeExampleV { code: self.code@, explanation: self.explanation@ }
    }
}

impl View for TestCase {
    type V = TestCaseV;

    open spec fn view(&self) -> TestCaseV {
        TestCaseV { input: self.input@, output: self.output@ }
    }
}

impl View for Exercise {
    type V = ExerciseV;

    open spec fn view(&self) -> ExerciseV {
        ExerciseV {
            title: self.title@,
            description: self.description@,
            hints: texts_view(self.hints@),
            example_input: opt_text_view(self.example_input),
            example_output: opt_text_view(self.example_output),
            test_cases: self.test_cases@.map_values(|t: TestCase| t@),
        }
    }
}

impl View for GeneratedContent {
    type V = GeneratedContentV;

    open spec fn view(&self) -> GeneratedContentV {
        GeneratedContentV {
            concept: self.concept@,
            step_by_step: texts_view(self.step_by_step@),
            code_examples: self.code_examples@.map_values(|e: CodeExample| e@),
            syntax_guide: self.syntax_guide@,
            common_patterns: texts_view(self.common_patterns@),
            exercises: self.exercises@.map_values(|e: Exercise| e@),
        }
    }
}

impl TestCase {
    pub fn duplicate(&self) -> (r: TestCase)
        ensures
            r@ == self@,
    {
        TestCase { input: copy_bytes(&self.input), output: copy_bytes(&self.output) }
    }
}

impl ExerciseV {
    /// The exercise carries at least one test case.
    pub open spec fn has_tests(self) -> bool {
        self.test_cases.len() >= 1
    }
}

impl GeneratedContentV {
    /// The floors every piece of content satisfies once recovery or
    /// synthesis has finished with it.
    pub open spec fn wf(self) -> bool {
        &&& self.code_examples.len() >= 2
    &&& self.exercises.len() >= 1
    &&& forall|i: int| 0 <= i < self.exercises.len() ==> (#[trigger] self.exercises[i]).has_tests()
    }
}

/// An optional text field counts as missing when it is absent or blank
/// after trimming.
pub open spec fn blank_opt(o: Option<Seq<u8>>) -> bool {
    match o {
        None => true,
        Some(s) => trim_spec(s).len() == 0,
    }
}

/// Decides `blank_opt` on an optional byte vector.
pub fn is_blank_opt(o: &Option<Vec<u8>>) -> (r: bool)
    ensures
        r == blank_opt(opt_text_view(*o)),
{
    match o {
        None => true,
        Some(s) => crate::text::trim(s.as_slice()).len() == 0,
    }
}

/// How backfilling relates an exercise to its filled form: the example
/// output is taken from the first test case when missing or blank, and
/// the example input likewise, defaulting to empty text; everything else
/// is untouched.
pub open spec fn fill_rel(pre: ExerciseV, post: ExerciseV) -> bool {
    &&& post.title == pre.title
    &&& post.description == pre.description
    &&& post.hints == pre.hints
    &&& post.test_cases == pre.test_cases
    &&& blank_opt(pre.example_output) && pre.test_cases.len() > 0 ==> post.example_output == Some(
        pre.test_cases[0].output,
    )
    &&& !(blank_opt(pre.example_output) && pre.test_cases.len() > 0) ==> post.example_output
        == pre.example_output
    &&& !blank_opt(pre.example_input) ==> post.example_input == pre.example_input
    &&& blank_opt(pre.example_input) && pre.test_cases.len() > 0 && trim_spec(
        pre.test_cases[0].input,
    ).len() > 0 ==> post.example_input == Some(pre.test_cases[0].input)
    &&& blank_opt(pre.example_input) && !(pre.test_cases.len() > 0 && trim_spec(
        pre.test_cases[0].input,
    ).len() > 0) ==> post.example_input == Some(Seq::<u8>::empty())
}

impl Exercise {
    /// Backfills a missing or blank `example_output` (and `example_input`)
    /// from the first test case, as the lesson flow does before exercises
    /// are presented.
    pub fn fill_example_fields(&mut self)
        ensures
            fill_rel(old(self)@, final(self)@),
    {
        if is_blank_opt(&self.example_output) {
            if self.test_cases.len() > 0 {
                self.example_output = Some(copy_bytes(&self.test_cases[0].output));
            }
        }
        if is_blank_opt(&self.example_input) {
            if self.test_cases.len() > 0 && crate::text::trim(
                self.test_cases[0].input.as_slice(),
            ).len() > 0 {
                self.example_input = Some(copy_bytes(&self.test_cases[0].input));
            } else {
                self.example_input = Some(Vec::new());
            }
        }
    }
}

} // verus!
