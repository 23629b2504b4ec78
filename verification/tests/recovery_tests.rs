use cursed_coddy::config::Language;
use cursed_coddy::lesson::{recover_lesson, RecoveryTag};
use cursed_coddy::recovery::{extract_json, recover, try_extract_incomplete, RecoveryResult};

fn by(s: &str) -> Vec<u8> {
    s.as_bytes().to_vec()
}

fn s(v: &[u8]) -> String {
    String::from_utf8_lossy(v).to_string()
}

#[test]
fn fenced_valid_json_parses_and_floors_rise() {
    // Scenario: fenced valid JSON with an empty exercises array.
    let input = by("Here you go:\n```json\n{\"concept\":\"c\",\"exercises\":[]}\n```");
    match recover(&input) {
        RecoveryResult::Parsed(c) => {
            assert_eq!(s(&c.concept), "c");
            assert_eq!(c.exercises.len(), 0);
        },
        _ => panic!("expected a direct parse"),
    }
    let (content, tag) = recover_lesson(Language::Rust, &by("variables"), &input);
    assert!(matches!(tag, RecoveryTag::Parsed));
    assert_eq!(s(&content.concept), "c");
    assert_eq!(content.exercises.len(), 1);
    assert!(content.code_examples.len() >= 2);
}

#[test]
fn plain_valid_json_round_trips() {
    let input = by(
        "{\"concept\": \"Ownership\", \"step_by_step\": [\"Step 1: read\"], \"code_examples\": [{\"code\": \"fn main() {}\", \"explanation\": \"empty\"}, {\"code\": \"let x = 1;\", \"explanation\": \"binding\"}], \"syntax_guide\": \"guide\", \"common_patterns\": [\"p1\"], \"exercises\": [{\"title\": \"t\", \"description\": \"d\", \"hints\": [\"h\"], \"example_input\": \"\", \"example_output\": \"out\", \"test_cases\": [{\"input\": \"\", \"output\": \"out\"}]}]}",
    );
    match recover(&input) {
        RecoveryResult::Parsed(c) => {
            assert_eq!(s(&c.concept), "Ownership");
            assert_eq!(c.step_by_step.len(), 1);
            assert_eq!(s(&c.step_by_step[0]), "Step 1: read");
            assert_eq!(c.code_examples.len(), 2);
            assert_eq!(s(&c.code_examples[0].code), "fn main() {}");
            assert_eq!(s(&c.syntax_guide), "guide");
            assert_eq!(c.common_patterns.len(), 1);
            assert_eq!(c.exercises.len(), 1);
            let ex = &c.exercises[0];
            assert_eq!(s(&ex.title), "t");
            assert_eq!(s(&ex.description), "d");
            assert_eq!(ex.hints.len(), 1);
            assert_eq!(ex.example_output.as_ref().map(|v| s(v)), Some("out".to_string()));
            assert_eq!(ex.test_cases.len(), 1);
            assert_eq!(s(&ex.test_cases[0].output), "out");
        },
        _ => panic!("expected a direct parse"),
    }
}

#[test]
fn unterminated_string_is_absorbed() {
    // Scenario: a string cut off in the middle of a value.  The string
    // is discarded back to a safe boundary and the rest rebuilt, so the
    // outcome is repaired (never an error), and the floors hold.
    let input = by("{\"concept\": \"Hello wor");
    let (content, tag) = recover_lesson(Language::Rust, &by("variables"), &input);
    assert!(matches!(tag, RecoveryTag::Repaired | RecoveryTag::Synthesized));
    assert!(content.code_examples.len() >= 2);
    assert!(content.exercises.len() >= 1);
    for ex in &content.exercises {
        assert!(ex.test_cases.len() >= 1);
    }
}

#[test]
fn truncation_at_every_offset_keeps_floors() {
    // Truncation tolerance: every cut strictly after the opening brace
    // still yields well-formed content.
    let full = by(
        "{\"concept\": \"A full concept sentence.\", \"code_examples\": [{\"code\": \"x\", \"explanation\": \"y\"}], \"exercises\": [{\"title\": \"t\", \"description\": \"d\", \"hints\": [], \"test_cases\": [{\"input\": \"\", \"output\": \"o\"}]}]}",
    );
    let topic = by("loops");
    for cut in 1..full.len() {
        let part = full[..cut].to_vec();
        let (content, _tag) = recover_lesson(Language::Cpp, &topic, &part);
        assert!(content.code_examples.len() >= 2);
        assert!(content.exercises.len() >= 1);
        for ex in &content.exercises {
            assert!(ex.test_cases.len() >= 1);
        }
    }
}

#[test]
fn truncated_object_is_repaired() {
    // The missing required fields are injected and the object closed.
    let input = by("{\"concept\": \"c\", \"step_by_step\": [\"a\", \"b\"]");
    match recover(&input) {
        RecoveryResult::Repaired(c) => {
            assert_eq!(s(&c.concept), "c");
            assert_eq!(c.step_by_step.len(), 2);
            assert_eq!(c.exercises.len(), 0);
        },
        _ => panic!("expected repair"),
    }
}

#[test]
fn truncated_array_is_closed() {
    let input = by("{\"concept\": \"c\", \"common_patterns\": [\"p1\", \"p2\"");
    match recover(&input) {
        RecoveryResult::Repaired(c) => {
            assert_eq!(s(&c.concept), "c");
            assert_eq!(c.common_patterns.len(), 2);
        },
        _ => panic!("expected repair"),
    }
}

#[test]
fn generic_fence_is_tried_after_json_fence() {
    let input = by("```\n{\"concept\": \"from generic fence\"}\n```");
    match recover(&input) {
        RecoveryResult::Parsed(c) => {
            assert_eq!(s(&c.concept), "from generic fence");
        },
        _ => panic!("expected a direct parse"),
    }
}

#[test]
fn extract_json_prefers_fenced_block() {
    let input = by("intro {\"concept\": \"outside\"} \n```json\n{\"concept\": \"inside\"}\n```");
    let (span, direct) = extract_json(&input).expect("span");
    assert!(direct);
    assert_eq!(s(&span), "{\"concept\": \"inside\"}");
}

#[test]
fn extract_json_nothing_found() {
    assert!(extract_json(&by("no json here at all")).is_none());
    match recover(&by("no json here at all")) {
        RecoveryResult::Failed(raw) => assert_eq!(s(&raw), "no json here at all"),
        _ => panic!("expected failure"),
    }
}

#[test]
fn repair_handles_escaped_quotes() {
    let input = by("{\"concept\": \"has \\\"quoted\\\" text\", \"syntax_guide\": \"g\"}");
    match recover(&input) {
        RecoveryResult::Parsed(c) => {
            assert_eq!(s(&c.concept), "has \"quoted\" text");
        },
        _ => panic!("expected a direct parse"),
    }
}

#[test]
fn try_extract_incomplete_closes_braces() {
    let fixed = try_extract_incomplete(&by("{\"concept\": \"c\", \"syntax_guide\": \"g\"")).expect(
        "repairable",
    );
    let v: serde_json::Value = serde_json::from_slice(&fixed).expect("repaired span parses");
    assert_eq!(v.get("concept").and_then(|x| x.as_str()), Some("c"));
    assert!(v.get("exercises").is_some());
    assert!(v.get("common_patterns").is_some());
}

#[test]
fn try_extract_incomplete_rejects_braceless_text() {
    assert!(try_extract_incomplete(&by("nothing here")).is_none());
}

#[test]
fn synthesized_content_from_unusable_text() {
    let input = by("The model rambled with no JSON at all.");
    let (content, tag) = recover_lesson(Language::JavaScript, &by("functions"), &input);
    assert!(matches!(tag, RecoveryTag::Synthesized));
    assert!(content.code_examples.len() >= 2);
    assert_eq!(content.exercises.len(), 1);
    assert_eq!(s(&content.exercises[0].title), "Practice: functions");
    assert_eq!(content.exercises[0].test_cases.len(), 3);
}
