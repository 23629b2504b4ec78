//! Decoding an accepted JSON span into [`GeneratedContent`].
//!
//! The meaning of a span is fixed by the named JSON accessors of
//! [`crate::json_doc`]; the spec functions here assemble those names into
//! a schema-level decode, and each executable decoder is proved to return
//! exactly what its spec function denotes.  A field absent from the object
//! defaults to empty text or an empty sequence; a missing or non-string
//! `concept` makes the whole decode fail, as does a present field of the
//! wrong shape.

use vstd::prelude::*;
use crate::content::{
    CodeExample, CodeExampleV, Exercise, ExerciseV, GeneratedContent, GeneratedContentV, TestCase,
    TestCaseV, opt_text_view, texts_view,
};
use crate::json_doc::{
    get_array_len, get_elem, get_field, get_text, json_array_len, json_elem, json_field, json_text,
};

verus! {

/// The text value of field `name`, when the field is present and a string.
pub open spec fn spec_field_text(doc: Seq<u8>, name: Seq<char>) -> Option<Seq<u8>> {
    match json_field(doc, name) {
        None => None,
        Some(v) => json_text(v),
    }
}

/// The decoded tail of an array of strings, from element `i` on.
pub open spec fn spec_texts_from(arr: Seq<u8>, i: int, n: int) -> Option<Seq<Seq<u8>>>
    decreases n - i,
{
    if i >= n {
        Some(Seq::<Seq<u8>>::empty())
    } else {
        match json_elem(arr, i) {
            None => None,
            Some(e) => match json_text(e) {
                None => None,
                Some(t) => match spec_texts_from(arr, i + 1, n) {
                    None => None,
                    Some(rest) => Some(seq![t] + rest),
                },
            },
        }
    }
}

/// The decoded form of an array of strings.
pub open spec fn spec_text_list(doc: Seq<u8>) -> Option<Seq<Seq<u8>>> {
    match json_array_len(doc) {
        None => None,
        Some(n) => spec_texts_from(doc, 0, n),
    }
}

/// The decoded form of one code example object.
pub open spec fn spec_example(doc: Seq<u8>) -> Option<CodeExampleV> {
    match spec_field_text(doc, "code"@) {
        None => None,
        Some(code) => match spec_field_text(doc, "explanation"@) {
            None => None,
            Some(explanation) => Some(CodeExampleV { code, explanation }),
        },
    }
}

/// The decoded tail of an array of code examples, from element `i` on.
pub open spec fn spec_examples_from(arr: Seq<u8>, i: int, n: int) -> Option<Seq<CodeExampleV>>
    decreases n - i,
{
    if i >= n {
        Some(Seq::<CodeExampleV>::empty())
    } else {
        match json_elem(arr, i) {
            None => None,
            Some(e) => match spec_example(e) {
                None => None,
                Some(x) => match spec_examples_from(arr, i + 1, n) {
                    None => None,
                    Some(rest) => Some(seq![x] + rest),
                },
            },
        }
    }
}

/// The decoded form of an array of code examples.
pub open spec fn spec_example_list(doc: Seq<u8>) -> Option<Seq<CodeExampleV>> {
    match json_array_len(doc) {
        None => None,
        Some(n) => spec_examples_from(doc, 0, n),
    }
}

/// The decoded form of one test case object.
pub open spec fn spec_test_case(doc: Seq<u8>) -> Option<TestCaseV> {
    match spec_field_text(doc, "input"@) {
        None => None,
        Some(input) => match spec_field_text(doc, "output"@) {
            None => None,
            Some(output) => Some(TestCaseV { input, output }),
        },
    }
}

/// The decoded tail of an array of test cases, from element `i` on.
pub open spec fn spec_tests_from(arr: Seq<u8>, i: int, n: int) -> Option<Seq<TestCaseV>>
    decreases n - i,
{
    if i >= n {
        Some(Seq::<TestCaseV>::empty())
    } else {
        match json_elem(arr, i) {
            None => None,
            Some(e) => match spec_test_case(e) {
                None => None,
                Some(t) => match spec_tests_from(arr, i + 1, n) {
                    None => None,
                    Some(rest) => Some(seq![t] + rest),
                },
            },
        }
    }
}

/// The decoded form of an array of test cases.
pub open spec fn spec_test_list(doc: Seq<u8>) -> Option<Seq<TestCaseV>> {
    match json_array_len(doc) {
        None => None,
        Some(n) => spec_tests_from(doc, 0, n),
    }
}

/// The decoded form of one exercise object: title, description, hints and
/// test cases are required; the example fields are optional.
pub open spec fn spec_exercise(doc: Seq<u8>) -> Option<ExerciseV> {
    match spec_field_text(doc, "title"@) {
        None => None,
        Some(title) => match spec_field_text(doc, "description"@) {
            None => None,
            Some(description) => match json_field(doc, "hints"@) {
                None => None,
                Some(h) => match spec_text_list(h) {
                    None => None,
                    Some(hints) => match json_field(doc, "test_cases"@) {
                        None => None,
                        Some(tc) => match spec_test_list(tc) {
                            None => None,
                            Some(test_cases) => Some(
                                ExerciseV {
                                    title,
                                    description,
                                    hints,
                                    example_input: spec_field_text(doc, "example_input"@),
                                    example_output: spec_field_text(doc, "example_output"@),
                                    test_cases,
                                },
                            ),
                        },
                    },
                },
            },
        },
    }
}

/// The decoded tail of an array of exercises, from element `i` on.
pub open spec fn spec_exercises_from(arr: Seq<u8>, i: int, n: int) -> Option<Seq<ExerciseV>>
    decreases n - i,
{
    if i >= n {
        Some(Seq::<ExerciseV>::empty())
    } else {
        match json_elem(arr, i) {
            None => None,
            Some(e) => match spec_exercise(e) {
                None => None,
                Some(x) => match spec_exercises_from(arr, i + 1, n) {
                    None => None,
                    Some(rest) => Some(seq![x] + rest),
                },
            },
        }
    }
}

/// The decoded form of an array of exercises.
pub open spec fn spec_exercise_list(doc: Seq<u8>) -> Option<Seq<ExerciseV>> {
    match json_array_len(doc) {
        None => None,
        Some(n) => spec_exercises_from(doc, 0, n),
    }
}

/// The decoded form of a whole content object.  `concept` is required;
/// every other field defaults when absent and fails the decode when
/// present with the wrong shape.
pub open spec fn spec_content(doc: Seq<u8>) -> Option<GeneratedContentV> {
    match spec_field_text(doc, "concept"@) {
        None => None,
        Some(concept) => {
            let steps = match json_field(doc, "step_by_step"@) {
                None => Some(Seq::<Seq<u8>>::empty()),
                Some(v) => spec_text_list(v),
            };
            let examples = match json_field(doc, "code_examples"@) {
                None => Some(Seq::<CodeExampleV>::empty()),
                Some(v) => spec_example_list(v),
            };
            let guide = match json_field(doc, "syntax_guide"@) {
                None => Some(Seq::<u8>::empty()),
                Some(v) => json_text(v),
            };
            let patterns = match json_field(doc, "common_patterns"@) {
                None => Some(Seq::<Seq<u8>>::empty()),
                Some(v) => spec_text_list(v),
            };
            let exercises = match json_field(doc, "exercises"@) {
                None => Some(Seq::<ExerciseV>::empty()),
                Some(v) => spec_exercise_list(v),
            };
            if steps is Some && examples is Some && guide is Some && patterns is Some && exercises
                is Some {
                Some(
                    GeneratedContentV {
                        concept,
                        step_by_step: steps->0,
                        code_examples: examples->0,
                        syntax_guide: guide->0,
                        common_patterns: patterns->0,
                        exercises: exercises->0,
                    },
                )
            } else {
                None
            }
        },
    }
}

/// Extracts the text of field `name`, when present and a string.
pub fn field_text(doc: &[u8], name: &str) -> (r: Option<Vec<u8>>)
    ensures
        r is Some <==> spec_field_text(doc@, name@) is Some,
        r matches Some(v) ==> spec_field_text(doc@, name@) == Some(v@),
{
    match get_field(doc, name) {
        None => None,
        Some(raw) => get_text(raw.as_slice()),
    }
}

/// Decodes an array of strings.
pub fn decode_text_list(doc: &[u8]) -> (r: Option<Vec<Vec<u8>>>)
    ensures
        r is Some <==> spec_text_list(doc@) is Some,
        r matches Some(v) ==> spec_text_list(doc@) == Some(texts_view(v@)),
{
    let n: usize = match get_array_len(doc) {
        Some(n) => n,
        None => {
            return None;
        },
    };
    let mut out: Vec<Vec<u8>> = Vec::new();
    proof {
        assert(texts_view(out@) =~= Seq::<Seq<u8>>::empty());
        if spec_texts_from(doc@, 0, n as int) is Some {
            assert(texts_view(out@) + spec_texts_from(doc@, 0, n as int)->0 =~= spec_texts_from(
                doc@,
                0,
                n as int,
            )->0);
        }
    }
    let mut i: usize = 0;
    while i < n
        invariant
            i <= n,
            json_array_len(doc@) == Some(n as int),
            spec_texts_from(doc@, i as int, n as int) is Some ==> spec_texts_from(doc@, 0, n as int)
                == Some(texts_view(out@) + spec_texts_from(doc@, i as int, n as int)->0),
            spec_texts_from(doc@, i as int, n as int) is None ==> spec_texts_from(
                doc@,
                0,
                n as int,
            ) is None,
        decreases n - i,
    {
        let elem: Vec<u8> = match get_elem(doc, i) {
            Some(e) => e,
            None => {
                proof {
                    assert(false);
                }
                return None;
            },
        };
        match get_text(elem.as_slice()) {
            None => {
                return None;
            },
            Some(t) => {
                let ghost prev = out@;
                let ghost tv = t@;
                out.push(t);
                proof {
                    assert(texts_view(out@) =~= texts_view(prev).push(tv));
                    let tail = spec_texts_from(doc@, i + 1, n as int);
                    if tail is Some {
                        let rest = tail->0;
                        assert(spec_texts_from(doc@, i as int, n as int) == Some(seq![tv] + rest));
                        assert(texts_view(prev) + (seq![tv] + rest) =~= texts_view(out@) + rest);
                    }
                }
            },
        }
        i += 1;
    }
    proof {
        assert(spec_texts_from(doc@, n as int, n as int) == Some(Seq::<Seq<u8>>::empty()));
        assert(texts_view(out@) + Seq::<Seq<u8>>::empty() =~= texts_view(out@));
    }
    Some(out)
}

/// Decodes one code example object.
pub fn decode_example(doc: &[u8]) -> (r: Option<CodeExample>)
    ensures
        r is Some <==> spec_example(doc@) is Some,
        r matches Some(e) ==> spec_example(doc@) == Some(e@),
{
    let code: Vec<u8> = match field_text(doc, "code") {
        Some(c) => c,
        None => {
            return None;
        },
    };
    let explanation: Vec<u8> = match field_text(doc, "explanation") {
        Some(x) => x,
        None => {
            return None;
        },
    };
    Some(CodeExample { code, explanation })
}

/// Decodes an array of code examples.
pub fn decode_example_list(doc: &[u8]) -> (r: Option<Vec<CodeExample>>)
    ensures
        r is Some <==> spec_example_list(doc@) is Some,
        r matches Some(v) ==> spec_example_list(doc@) == Some(
            v@.map_values(|e: CodeExample| e@),
        ),
{
    let n: usize = match get_array_len(doc) {
        Some(n) => n,
        None => {
            return None;
        },
    };
    let mut out: Vec<CodeExample> = Vec::new();
    proof {
        assert(out@.map_values(|e: CodeExample| e@) =~= Seq::<CodeExampleV>::empty());
        if spec_examples_from(doc@, 0, n as int) is Some {
            assert(out@.map_values(|e: CodeExample| e@) + spec_examples_from(doc@, 0, n as int)->0
                =~= spec_examples_from(doc@, 0, n as int)->0);
        }
    }
    let mut i: usize = 0;
    while i < n
        invariant
            i <= n,
            json_array_len(doc@) == Some(n as int),
            spec_examples_from(doc@, i as int, n as int) is Some ==> spec_examples_from(
                doc@,
                0,
                n as int,
            ) == Some(
                out@.map_values(|e: CodeExample| e@) + spec_examples_from(
                    doc@,
                    i as int,
                    n as int,
                )->0,
            ),
            spec_examples_from(doc@, i as int, n as int) is None ==> spec_examples_from(
                doc@,
                0,
                n as int,
            ) is None,
        decreases n - i,
    {
        let elem: Vec<u8> = match get_elem(doc, i) {
            Some(e) => e,
            None => {
                proof {
                    assert(false);
                }
                return None;
            },
        };
        match decode_example(elem.as_slice()) {
            None => {
                return None;
            },
            Some(x) => {
                let ghost prev = out@;
                let ghost xv = x@;
                out.push(x);
                proof {
                    assert(out@.map_values(|e: CodeExample| e@) =~= prev.map_values(
                        |e: CodeExample| e@,
                    ).push(xv));
                    let tail = spec_examples_from(doc@, i + 1, n as int);
                    if tail is Some {
                        let rest = tail->0;
                        assert(spec_examples_from(doc@, i as int, n as int) == Some(
                            seq![xv] + rest,
                        ));
                        assert(prev.map_values(|e: CodeExample| e@) + (seq![xv] + rest)
                            =~= out@.map_values(|e: CodeExample| e@) + rest);
                    }
                }
            },
        }
        i += 1;
    }
    proof {
        assert(spec_examples_from(doc@, n as int, n as int) == Some(Seq::<CodeExampleV>::empty()));
        assert(out@.map_values(|e: CodeExample| e@) + Seq::<CodeExampleV>::empty()
            =~= out@.map_values(|e: CodeExample| e@));
    }
    Some(out)
}

/// Decodes one test case object.
pub fn decode_test_case(doc: &[u8]) -> (r: Option<TestCase>)
    ensures
        r is Some <==> spec_test_case(doc@) is Some,
        r matches Some(t) ==> spec_test_case(doc@) == Some(t@),
{
    let input: Vec<u8> = match field_text(doc, "input") {
        Some(v) => v,
        None => {
            return None;
        },
    };
    let output: Vec<u8> = match field_text(doc, "output") {
        Some(v) => v,
        None => {
            return None;
        },
    };
    Some(TestCase { input, output })
}

/// Decodes an array of test cases.
pub fn decode_test_list(doc: &[u8]) -> (r: Option<Vec<TestCase>>)
    ensures
        r is Some <==> spec_test_list(doc@) is Some,
        r matches Some(v) ==> spec_test_list(doc@) == Some(v@.map_values(|t: TestCase| t@)),
{
    let n: usize = match get_array_len(doc) {
        Some(n) => n,
        None => {
            return None;
        },
    };
    let mut out: Vec<TestCase> = Vec::new();
    proof {
        assert(out@.map_values(|t: TestCase| t@) =~= Seq::<TestCaseV>::empty());
        if spec_tests_from(doc@, 0, n as int) is Some {
            assert(out@.map_values(|t: TestCase| t@) + spec_tests_from(doc@, 0, n as int)->0
                =~= spec_tests_from(doc@, 0, n as int)->0);
        }
    }
    let mut i: usize = 0;
    while i < n
        invariant
            i <= n,
            json_array_len(doc@) == Some(n as int),
            spec_tests_from(doc@, i as int, n as int) is Some ==> spec_tests_from(
                doc@,
                0,
                n as int,
            ) == Some(
                out@.map_values(|t: TestCase| t@) + spec_tests_from(doc@, i as int, n as int)->0,
            ),
            spec_tests_from(doc@, i as int, n as int) is None ==> spec_tests_from(
                doc@,
                0,
                n as int,
            ) is None,
        decreases n - i,
    {
        let elem: Vec<u8> = match get_elem(doc, i) {
            Some(e) => e,
            None => {
                proof {
                    assert(false);
                }
                return None;
            },
        };
        match decode_test_case(elem.as_slice()) {
            None => {
                return None;
            },
            Some(t) => {
                let ghost prev = out@;
                let ghost tv = t@;
                out.push(t);
                proof {
                    assert(out@.map_values(|t: TestCase| t@) =~= prev.map_values(
                        |t: TestCase| t@,
                    ).push(tv));
                    let tail = spec_tests_from(doc@, i + 1, n as int);
                    if tail is Some {
                        let rest = tail->0;
                        assert(spec_tests_from(doc@, i as int, n as int) == Some(seq![tv] + rest));
                        assert(prev.map_values(|t: TestCase| t@) + (seq![tv] + rest)
                            =~= out@.map_values(|t: TestCase| t@) + rest);
                    }
                }
            },
        }
        i += 1;
    }
    proof {
        assert(spec_tests_from(doc@, n as int, n as int) == Some(Seq::<TestCaseV>::empty()));
        assert(out@.map_values(|t: TestCase| t@) + Seq::<TestCaseV>::empty() =~= out@.map_values(
            |t: TestCase| t@,
        ));
    }
    Some(out)
}

/// Decodes one exercise object.
pub fn decode_exercise(doc: &[u8]) -> (r: Option<Exercise>)
    ensures
        r is Some <==> spec_exercise(doc@) is Some,
        r matches Some(e) ==> spec_exercise(doc@) == Some(e@),
{
    let title: Vec<u8> = match field_text(doc, "title") {
        Some(v) => v,
        None => {
            return None;
        },
    };
    let description: Vec<u8> = match field_text(doc, "description") {
        Some(v) => v,
        None => {
            return None;
        },
    };
    let hints_raw: Vec<u8> = match get_field(doc, "hints") {
        Some(v) => v,
        None => {
            return None;
        },
    };
    let hints: Vec<Vec<u8>> = match decode_text_list(hints_raw.as_slice()) {
        Some(v) => v,
        None => {
            return None;
        },
    };
    let tests_raw: Vec<u8> = match get_field(doc, "test_cases") {
        Some(v) => v,
        None => {
            return None;
        },
    };
    let test_cases: Vec<TestCase> = match decode_test_list(tests_raw.as_slice()) {
        Some(v) => v,
        None => {
            return None;
        },
    };
    let example_input: Option<Vec<u8>> = field_text(doc, "example_input");
    let example_output: Option<Vec<u8>> = field_text(doc, "example_output");
    let ex = Exercise { title, description, hints, example_input, example_output, test_cases };
    proof {
        assert(opt_text_view(ex.example_input) == spec_field_text(doc@, "example_input"@));
        assert(opt_text_view(ex.example_output) == spec_field_text(doc@, "example_output"@));
    }
    Some(ex)
}

/// Decodes an array of exercises.
pub fn decode_exercise_list(doc: &[u8]) -> (r: Option<Vec<Exercise>>)
    ensures
        r is Some <==> spec_exercise_list(doc@) is Some,
        r matches Some(v) ==> spec_exercise_list(doc@) == Some(v@.map_values(|e: Exercise| e@)),
{
    let n: usize = match get_array_len(doc) {
        Some(n) => n,
        None => {
            return None;
        },
    };
    let mut out: Vec<Exercise> = Vec::new();
    proof {
        assert(out@.map_values(|e: Exercise| e@) =~= Seq::<ExerciseV>::empty());
        if spec_exercises_from(doc@, 0, n as int) is Some {
            assert(out@.map_values(|e: Exercise| e@) + spec_exercises_from(doc@, 0, n as int)->0
                =~= spec_exercises_from(doc@, 0, n as int)->0);
        }
    }
    let mut i: usize = 0;
    while i < n
        invariant
            i <= n,
            json_array_len(doc@) == Some(n as int),
            spec_exercises_from(doc@, i as int, n as int) is Some ==> spec_exercises_from(
                doc@,
                0,
                n as int,
            ) == Some(
                out@.map_values(|e: Exercise| e@) + spec_exercises_from(doc@, i as int, n as int)->0,
            ),
            spec_exercises_from(doc@, i as int, n as int) is None ==> spec_exercises_from(
                doc@,
                0,
                n as int,
            ) is None,
        decreases n - i,
    {
        let elem: Vec<u8> = match get_elem(doc, i) {
            Some(e) => e,
            None => {
                proof {
                    assert(false);
                }
                return None;
            },
        };
        match decode_exercise(elem.as_slice()) {
            None => {
                return None;
            },
            Some(x) => {
                let ghost prev = out@;
                let ghost xv = x@;
                out.push(x);
                proof {
                    assert(out@.map_values(|e: Exercise| e@) =~= prev.map_values(
                        |e: Exercise| e@,
                    ).push(xv));
                    let tail = spec_exercises_from(doc@, i + 1, n as int);
                    if tail is Some {
                        let rest = tail->0;
                        assert(spec_exercises_from(doc@, i as int, n as int) == Some(
                            seq![xv] + rest,
                        ));
                        assert(prev.map_values(|e: Exercise| e@) + (seq![xv] + rest)
                            =~= out@.map_values(|e: Exercise| e@) + rest);
                    }
                }
            },
        }
        i += 1;
    }
    proof {
        assert(spec_exercises_from(doc@, n as int, n as int) == Some(Seq::<ExerciseV>::empty()));
        assert(out@.map_values(|e: Exercise| e@) + Seq::<ExerciseV>::empty() =~= out@.map_values(
            |e: Exercise| e@,
        ));
    }
    Some(out)
}

impl GeneratedContent {
    /// Decodes a whole content object from an accepted JSON span.
    pub fn from_json(doc: &[u8]) -> (r: Option<GeneratedContent>)
        ensures
            r is Some <==> spec_content(doc@) is Some,
            r matches Some(c) ==> spec_content(doc@) == Some(c@),
    {
        let concept: Vec<u8> = match field_text(doc, "concept") {
            Some(v) => v,
            None => {
                return None;
            },
        };
        let step_by_step: Vec<Vec<u8>> = match get_field(doc, "step_by_step") {
            None => Vec::new(),
            Some(v) => match decode_text_list(v.as_slice()) {
                Some(l) => l,
                None => {
                    return None;
                },
            },
        };
        let code_examples: Vec<CodeExample> = match get_field(doc, "code_examples") {
            None => Vec::new(),
            Some(v) => match decode_example_list(v.as_slice()) {
                Some(l) => l,
                None => {
                    return None;
                },
            },
        };
        let syntax_guide: Vec<u8> = match get_field(doc, "syntax_guide") {
            None => Vec::new(),
            Some(v) => match get_text(v.as_slice()) {
                Some(t) => t,
                None => {
                    return None;
                },
            },
        };
        let common_patterns: Vec<Vec<u8>> = match get_field(doc, "common_patterns") {
            None => Vec::new(),
            Some(v) => match decode_text_list(v.as_slice()) {
                Some(l) => l,
                None => {
                    return None;
                },
            },
        };
        let exercises: Vec<Exercise> = match get_field(doc, "exercises") {
            None => Vec::new(),
            Some(v) => match decode_exercise_list(v.as_slice()) {
                Some(l) => l,
                None => {
                    return None;
                },
            },
        };
        let c = GeneratedContent {
            concept,
            step_by_step,
            code_examples,
            syntax_guide,
            common_patterns,
            exercises,
        };
        proof {
            assert(texts_view(Seq::<Vec<u8>>::empty()) =~= Seq::<Seq<u8>>::empty());
            assert(Seq::<Exercise>::empty().map_values(|e: Exercise| e@) =~= Seq::<
                ExerciseV,
            >::empty());
            assert(Seq::<CodeExample>::empty().map_values(|e: CodeExample| e@) =~= Seq::<
                CodeExampleV,
            >::empty());
        }
        Some(c)
    }
}

} // verus!
