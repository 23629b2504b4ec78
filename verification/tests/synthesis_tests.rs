use cursed_coddy::config::Language;
use cursed_coddy::content::Exercise;
use cursed_coddy::synthesis::Generator;

fn bytes(s: &str) -> Vec<u8> {
    s.as_bytes().to_vec()
}

fn text(v: &[u8]) -> String {
    String::from_utf8_lossy(v).to_string()
}

#[test]
fn test_cases_without_input_marker() {
    // Deterministic generation, no input: three identical output-only cases.
    let cases = Generator::generate_test_cases_for_exercise(
        Language::Rust,
        &bytes("Print a value"),
        &bytes("hello"),
    );
    assert_eq!(cases.len(), 3);
    for c in &cases {
        assert_eq!(c.input.len(), 0);
        assert_eq!(text(&c.output), "hello");
    }
}

#[test]
fn test_cases_with_input_marker() {
    // Deterministic generation, with input: distinct inputs, sentinel
    // substitution, and the unmodified output on the "42" case.
    let cases = Generator::generate_test_cases_for_exercise(
        Language::Rust,
        &bytes("Your program should read input from stdin"),
        &bytes("Result: 42"),
    );
    assert_eq!(cases.len(), 3);
    assert_eq!(text(&cases[0].input), "5");
    assert_eq!(text(&cases[0].output), "Result: 5");
    assert_eq!(text(&cases[1].input), "10");
    assert_eq!(text(&cases[1].output), "Result: 10");
    assert_eq!(text(&cases[2].input), "42");
    assert_eq!(text(&cases[2].output), "Result: 42");
}

#[test]
fn test_cases_substitute_test_sentinel() {
    let cases = Generator::generate_test_cases_for_exercise(
        Language::JavaScript,
        &bytes("read input from the user"),
        &bytes("value is test"),
    );
    assert_eq!(text(&cases[0].output), "value is 5");
    assert_eq!(text(&cases[1].output), "value is 10");
    assert_eq!(text(&cases[2].output), "value is test");
}

#[test]
fn concept_is_mined_from_response() {
    let response = bytes(
        "Some preamble.\nConcept: closures capture their environment by reference or by value.\nMore text follows.",
    );
    let c = Generator::mine_concept(&response, &bytes("closures"), Language::Rust);
    assert_eq!(text(&c), "closures capture their environment by reference or by value.");
}

#[test]
fn concept_falls_back_when_too_short() {
    let response = bytes("concept: tiny\nrest");
    let c = Generator::mine_concept(&response, &bytes("closures"), Language::Rust);
    assert_eq!(text(&c), "An introduction to closures in Rust.");
}

#[test]
fn steps_are_mined_in_order() {
    let response = bytes("Step overview\nstep 1: do this\nstep 2: then that\nmore");
    let steps = Generator::mine_steps(&response);
    assert_eq!(steps.len(), 2);
    assert_eq!(text(&steps[0]), "Step 1: do this");
    assert_eq!(text(&steps[1]), "Step 2: then that");
}

#[test]
fn code_blocks_are_mined_and_json_skipped() {
    let response = bytes(
        "```json\n{\"concept\": \"x\"}\n```\n```\nlet a = 1;\n```\n```\nlet b = 2;\n```\n```\nlet c = 3;\n```",
    );
    let blocks = Generator::mine_code_blocks(&response, &bytes("variables"), Language::Rust);
    assert_eq!(blocks.len(), 2);
    assert_eq!(text(&blocks[0].code), "let a = 1;");
    assert_eq!(text(&blocks[1].code), "let b = 2;");
}

#[test]
fn curated_examples_for_random_topic() {
    let (guide, examples) = Generator::generate_topic_specific_content(
        Language::Rust,
        &bytes("Random numbers"),
    );
    assert!(!guide.is_empty());
    assert_eq!(examples.len(), 2);
    assert!(text(&examples[0].code).contains("rand"));
}

#[test]
fn curated_table_misses_unknown_topic() {
    let (guide, examples) = Generator::generate_topic_specific_content(
        Language::JavaScript,
        &bytes("category theory"),
    );
    assert!(guide.is_empty());
    assert!(examples.is_empty());
}

#[test]
fn fallback_exercise_for_variables() {
    let ex: Exercise = Generator::create_fallback_exercise_with_tests(
        Language::Rust,
        &bytes("variables and mutability"),
    );
    assert_eq!(text(&ex.title), "Practice: variables and mutability");
    assert_eq!(text(&ex.example_output.as_ref().unwrap()), "Your name");
    assert_eq!(ex.test_cases.len(), 3);
    assert_eq!(ex.hints.len(), 2);
}

#[test]
fn fallback_exercise_for_random_numbers() {
    let ex: Exercise = Generator::create_fallback_exercise_with_tests(
        Language::Cpp,
        &bytes("random numbers"),
    );
    assert_eq!(
        text(&ex.example_output.as_ref().unwrap()),
        "Random number between 1 and 100: 42"
    );
}

#[test]
fn fallback_exercise_generic_template() {
    let ex: Exercise = Generator::create_fallback_exercise_with_tests(
        Language::JavaScript,
        &bytes("promises"),
    );
    assert_eq!(
        text(&ex.description),
        "Write code in JavaScript to demonstrate your understanding of promises. Refer to the explanations and examples above."
    );
    assert_eq!(text(&ex.example_output.as_ref().unwrap()), "Output demonstrating promises");
}

#[test]
fn full_synthesis_is_deterministic() {
    let response = bytes("concept: something quite long enough to be kept as mined text\n");
    let a = Generator::create_fallback_from_response(
        Language::Rust,
        &bytes("loops"),
        &response,
        &[],
    );
    let b = Generator::create_fallback_from_response(
        Language::Rust,
        &bytes("loops"),
        &response,
        &[],
    );
    assert_eq!(text(&a.concept), text(&b.concept));
    assert_eq!(a.code_examples.len(), b.code_examples.len());
    assert_eq!(a.exercises.len(), 1);
    assert_eq!(b.exercises.len(), 1);
    assert_eq!(text(&a.exercises[0].description), text(&b.exercises[0].description));
}

#[test]
fn gpu_markers_are_detected() {
    assert!(Generator::response_mentions_gpu(b"model ran on CUDA cores"));
    assert!(Generator::response_mentions_gpu(b"using rocm0 backend"));
    assert!(!Generator::response_mentions_gpu(b"plain cpu inference"));
}
