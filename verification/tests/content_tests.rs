use cursed_coddy::content::{Exercise, GeneratedContent, TestCase};
use cursed_coddy::lesson::{wrap_text, LessonManager};

fn v(s: &str) -> Vec<u8> {
    s.as_bytes().to_vec()
}

fn st(b: &[u8]) -> String {
    String::from_utf8_lossy(b).to_string()
}

#[test]
fn backfill_example_output_from_first_case() {
    // Backfill: a missing example output is taken from the first test case.
    let mut ex = Exercise {
        title: v("t"),
        description: v("d"),
        hints: Vec::new(),
        example_input: None,
        example_output: None,
        test_cases: vec![TestCase { input: v(""), output: v("X") }],
    };
    ex.fill_example_fields();
    assert_eq!(ex.example_output.as_ref().map(|o| st(o)), Some("X".to_string()));
    assert_eq!(ex.example_input.as_ref().map(|o| st(o)), Some("".to_string()));
}

#[test]
fn backfill_keeps_existing_output() {
    let mut ex = Exercise {
        title: v("t"),
        description: v("d"),
        hints: Vec::new(),
        example_input: Some(v("7")),
        example_output: Some(v("kept")),
        test_cases: vec![TestCase { input: v("1"), output: v("other") }],
    };
    ex.fill_example_fields();
    assert_eq!(ex.example_output.as_ref().map(|o| st(o)), Some("kept".to_string()));
    assert_eq!(ex.example_input.as_ref().map(|o| st(o)), Some("7".to_string()));
}

#[test]
fn backfill_blank_output_counts_as_missing() {
    let mut ex = Exercise {
        title: v("t"),
        description: v("d"),
        hints: Vec::new(),
        example_input: Some(v("  ")),
        example_output: Some(v("   ")),
        test_cases: vec![TestCase { input: v("5"), output: v("Y") }],
    };
    ex.fill_example_fields();
    assert_eq!(ex.example_output.as_ref().map(|o| st(o)), Some("Y".to_string()));
    assert_eq!(ex.example_input.as_ref().map(|o| st(o)), Some("5".to_string()));
}

#[test]
fn prepare_content_backfills_every_exercise() {
    let mut content = GeneratedContent {
        concept: v("c"),
        step_by_step: Vec::new(),
        code_examples: Vec::new(),
        syntax_guide: v(""),
        common_patterns: Vec::new(),
        exercises: vec![
            Exercise {
                title: v("a"),
                description: v("d"),
                hints: Vec::new(),
                example_input: None,
                example_output: None,
                test_cases: vec![TestCase { input: v(""), output: v("first") }],
            },
            Exercise {
                title: v("b"),
                description: v("d"),
                hints: Vec::new(),
                example_input: None,
                example_output: None,
                test_cases: vec![TestCase { input: v("in"), output: v("second") }],
            },
        ],
    };
    LessonManager::prepare_content(&mut content);
    assert_eq!(content.exercises[0].example_output.as_ref().map(|o| st(o)), Some("first".to_string()));
    assert_eq!(content.exercises[1].example_output.as_ref().map(|o| st(o)), Some("second".to_string()));
    assert_eq!(content.exercises[1].example_input.as_ref().map(|o| st(o)), Some("in".to_string()));
}

#[test]
fn from_json_defaults_optional_fields() {
    let c = GeneratedContent::from_json(b"{\"concept\": \"only\"}").expect("decodes");
    assert_eq!(st(&c.concept), "only");
    assert!(c.step_by_step.is_empty());
    assert!(c.code_examples.is_empty());
    assert!(c.syntax_guide.is_empty());
    assert!(c.exercises.is_empty());
}

#[test]
fn from_json_requires_concept() {
    assert!(GeneratedContent::from_json(b"{\"syntax_guide\": \"g\"}").is_none());
    assert!(GeneratedContent::from_json(b"not json").is_none());
}

#[test]
fn from_json_reads_exercise_fields() {
    let c = GeneratedContent::from_json(
        b"{\"concept\": \"c\", \"exercises\": [{\"title\": \"T\", \"description\": \"D\", \"hints\": [\"h1\", \"h2\"], \"test_cases\": [{\"input\": \"i\", \"output\": \"o\"}]}]}",
    )
    .expect("decodes");
    assert_eq!(c.exercises.len(), 1);
    let ex = &c.exercises[0];
    assert_eq!(st(&ex.title), "T");
    assert_eq!(ex.hints.len(), 2);
    assert!(ex.example_input.is_none());
    assert_eq!(ex.test_cases.len(), 1);
    assert_eq!(st(&ex.test_cases[0].input), "i");
}

#[test]
fn from_json_rejects_bad_exercise() {
    // A present exercises array with a malformed element fails the decode.
    assert!(GeneratedContent::from_json(
        b"{\"concept\": \"c\", \"exercises\": [{\"title\": \"T\"}]}"
    )
    .is_none());
}

#[test]
fn wrapping_splits_long_lines() {
    let wrapped = wrap_text(b"one two three four", 10, 2);
    assert_eq!(st(&wrapped), "  one two\n  three\n  four");
}

#[test]
fn wrapping_collapses_whitespace_runs() {
    let wrapped = wrap_text(b"  a   b  ", 20, 0);
    assert_eq!(st(&wrapped), "a b");
}

#[test]
fn wrapping_empty_text_is_empty() {
    let wrapped = wrap_text(b"", 10, 4);
    assert_eq!(st(&wrapped), "");
}
