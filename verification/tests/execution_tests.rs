use cursed_coddy::content::{Exercise, TestCase};
use cursed_coddy::executor::{
    classify_run, CaseResult, ExecutionOutcome, Executor, VerificationSession,
};
use cursed_coddy::runners::{CppRunner, FileManager, RustRunner};
use cursed_coddy::config::Language;

fn raw(s: &str) -> Vec<u8> {
    s.as_bytes().to_vec()
}

fn show(v: &[u8]) -> String {
    String::from_utf8_lossy(v).to_string()
}

fn exercise_with_cases(cases: Vec<TestCase>) -> Exercise {
    Exercise {
        title: raw("t"),
        description: raw("d"),
        hints: Vec::new(),
        example_input: None,
        example_output: None,
        test_cases: cases,
    }
}

#[test]
fn comparison_trims_both_sides() {
    assert!(Executor::compare_output(b"foo\n", b"foo"));
    assert!(!Executor::compare_output(b"foo", b"bar"));
    assert!(Executor::compare_output(b"", b""));
    assert!(Executor::compare_output(b"  x  ", b"x"));
    assert!(!Executor::compare_output(b"a b", b"ab"));
}

#[test]
fn build_failure_is_isolated_per_case() {
    // Scenario: three test cases, a solution that fails to build: three
    // per-case entries, all failed, overall fail, no early abort.
    let ex = exercise_with_cases(vec![
        TestCase { input: raw(""), output: raw("a") },
        TestCase { input: raw(""), output: raw("b") },
        TestCase { input: raw(""), output: raw("c") },
    ]);
    let outcomes = vec![
        ExecutionOutcome::BuildFailed(raw("compile error")),
        ExecutionOutcome::BuildFailed(raw("compile error")),
        ExecutionOutcome::BuildFailed(raw("compile error")),
    ];
    let (overall, per_case): (bool, Vec<CaseResult>) = VerificationSession::run(&ex, outcomes);
    assert!(!overall);
    assert_eq!(per_case.len(), 3);
    for (i, c) in per_case.iter().enumerate() {
        assert_eq!(c.index, i);
        assert!(!c.passed);
        assert!(matches!(c.outcome, ExecutionOutcome::BuildFailed(_)));
    }
}

#[test]
fn mixed_outcomes_judged_independently() {
    let ex = exercise_with_cases(vec![
        TestCase { input: raw(""), output: raw("ok") },
        TestCase { input: raw(""), output: raw("ok") },
        TestCase { input: raw(""), output: raw("ok") },
    ]);
    let outcomes = vec![
        ExecutionOutcome::Stdout(raw("ok\n")),
        ExecutionOutcome::RuntimeFailed(raw("crash")),
        ExecutionOutcome::Stdout(raw("wrong")),
    ];
    let (overall, per_case) = VerificationSession::run(&ex, outcomes);
    assert!(!overall);
    assert!(per_case[0].passed);
    assert!(!per_case[1].passed);
    assert!(!per_case[2].passed);
}

#[test]
fn all_passing_cases_pass_overall() {
    let ex = exercise_with_cases(vec![
        TestCase { input: raw("5"), output: raw("25") },
        TestCase { input: raw("10"), output: raw("100") },
    ]);
    let outcomes = vec![
        ExecutionOutcome::Stdout(raw("25\n")),
        ExecutionOutcome::Stdout(raw("100\n")),
    ];
    let (overall, per_case) = VerificationSession::run(&ex, outcomes);
    assert!(overall);
    assert_eq!(per_case.len(), 2);
}

#[test]
fn no_test_cases_pass_on_any_success() {
    let ex = exercise_with_cases(Vec::new());
    let (overall, per_case) = VerificationSession::run(
        &ex,
        vec![ExecutionOutcome::Stdout(raw("anything at all"))],
    );
    assert!(overall);
    assert_eq!(per_case.len(), 1);
    let ex2 = exercise_with_cases(Vec::new());
    let (overall2, _) = VerificationSession::run(
        &ex2,
        vec![ExecutionOutcome::MissingFile],
    );
    assert!(!overall2);
}

#[test]
fn classify_run_maps_exit_status() {
    match classify_run(true, raw("out"), raw("err")) {
        ExecutionOutcome::Stdout(o) => assert_eq!(show(&o), "out"),
        _ => panic!("expected stdout"),
    }
    match classify_run(false, raw("out"), raw("err")) {
        ExecutionOutcome::RuntimeFailed(e) => assert_eq!(show(&e), "err"),
        _ => panic!("expected runtime failure"),
    }
}

#[test]
fn templates_per_language() {
    assert_eq!(FileManager::get_template(&Language::JavaScript), "// Write your solution here\n\n");
    assert!(FileManager::get_template(&Language::Cpp).contains("#include <iostream>"));
    assert_eq!(
        FileManager::get_template(&Language::Rust),
        "fn main() {\n    // Write your solution here\n}\n"
    );
}

#[test]
fn exercise_file_names() {
    assert_eq!(show(&FileManager::exercise_file_name(&Language::Rust, 1)), "exercise_1.rs");
    assert_eq!(show(&FileManager::exercise_file_name(&Language::Cpp, 12)), "exercise_12.cpp");
    assert_eq!(show(&FileManager::exercise_file_name(&Language::JavaScript, 3)), "exercise_3.js");
}

#[test]
fn artifact_path_strips_extension() {
    assert_eq!(show(&CppRunner::artifact_path(b"/tmp/work/exercise_1.cpp")), "/tmp/work/exercise_1");
    assert_eq!(show(&CppRunner::artifact_path(b"plain")), "plain");
    assert_eq!(show(&CppRunner::artifact_path(b"/a.dir/file")), "/a.dir/file");
}

#[test]
fn dependencies_are_detected() {
    let code = b"use rand::Rng;\nuse serde_json::Value;\nfn main() {}";
    let deps = RustRunner::detect_dependencies(code);
    let lines: Vec<String> = deps.iter().map(|d| show(d)).collect();
    assert_eq!(lines, vec!["rand = \"0.8\"".to_string(), "serde_json = \"1.0\"".to_string()]);
}

#[test]
fn no_dependencies_detected_in_plain_code() {
    let deps = RustRunner::detect_dependencies(b"fn main() { println!(\"hi\"); }");
    assert!(deps.is_empty());
}

#[test]
fn cargo_toml_without_dependencies() {
    let manifest = RustRunner::generate_cargo_toml(&Vec::new());
    assert_eq!(
        show(&manifest),
        "[package]\nname = \"exercise\"\nversion = \"0.1.0\"\nedition = \"2021\"\n"
    );
}

#[test]
fn cargo_toml_with_dependencies() {
    let deps = vec![raw("rand = \"0.8\""), raw("serde_json = \"1.0\"")];
    let manifest = RustRunner::generate_cargo_toml(&deps);
    assert_eq!(
        show(&manifest),
        "[package]\nname = \"exercise\"\nversion = \"0.1.0\"\nedition = \"2021\"\n\n[dependencies]\nrand = \"0.8\"\nserde_json = \"1.0\"\n"
    );
}
