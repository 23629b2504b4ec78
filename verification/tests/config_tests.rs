use cursed_coddy::config::{Difficulty, Language, LessonType};
use cursed_coddy::curriculum::Curriculum;
use cursed_coddy::human_lessons::HumanLessons;
use cursed_coddy::journey::{JourneyManager, JourneyStep};
use cursed_coddy::menu::{compile_topic, random_topic_at, random_topic_count};
use cursed_coddy::ruleset::Ruleset;
use cursed_coddy::tracker::{Progress, Tracker};

fn u(v: &[u8]) -> String {
    String::from_utf8_lossy(v).to_string()
}

#[test]
fn display_names_and_extensions() {
    assert_eq!(Language::Rust.display_name(), "Rust");
    assert_eq!(Language::Cpp.display_name(), "C++");
    assert_eq!(Language::JavaScript.display_name(), "JavaScript");
    assert_eq!(Language::Rust.file_extension(), "rs");
    assert_eq!(Language::Cpp.file_extension(), "cpp");
    assert_eq!(Language::JavaScript.file_extension(), "js");
    assert_eq!(Difficulty::Beginner.display_name(), "Beginner");
    assert_eq!(Difficulty::Advanced.display_name(), "Advanced");
    assert_eq!(LessonType::Medium.display_name(), "Medium");
}

#[test]
fn lesson_type_counts() {
    assert_eq!(LessonType::Short.concept_count(), 1);
    assert_eq!(LessonType::Medium.concept_count(), 2);
    assert_eq!(LessonType::Long.concept_count(), 3);
    assert_eq!(LessonType::Short.exercise_count(), 1);
    assert_eq!(LessonType::Medium.exercise_count(), 3);
    assert_eq!(LessonType::Long.exercise_count(), 5);
}

#[test]
fn curricula_have_six_stages() {
    for lang in [Language::Rust, Language::Cpp, Language::JavaScript] {
        let c = Curriculum::get_for_language(lang);
        assert_eq!(c.language, lang);
        assert_eq!(c.total_stages(), 6);
        for i in 0..6 {
            let stage = c.get_stage(i).expect("stage in range");
            assert_eq!(stage.topics.len(), 4);
        }
        assert!(c.get_stage(6).is_none());
    }
}

#[test]
fn rust_curriculum_starts_with_basics() {
    let c = Curriculum::rust_curriculum();
    assert_eq!(u(&c.stages[0].name), "Getting Started");
    assert_eq!(u(&c.stages[0].topics[0]), "variables and mutability");
    assert_eq!(c.stages[0].difficulty, Difficulty::Beginner);
    assert_eq!(c.stages[5].difficulty, Difficulty::Advanced);
}

#[test]
fn prompt_embeds_lesson_parameters() {
    let p = Ruleset::generate_prompt(
        Language::Rust,
        Difficulty::Beginner,
        LessonType::Medium,
        b"ownership",
    );
    let text = u(&p);
    assert!(text.contains("LANGUAGE: Rust"));
    assert!(text.contains("DIFFICULTY: Beginner"));
    assert!(text.contains("LESSON TYPE: Medium"));
    assert!(text.contains("TOPIC: ownership"));
    assert!(text.contains("OUTPUT FORMAT (JSON)"));
    assert!(text.contains("at least 3 exercise(s)"));
}

#[test]
fn human_lessons_cycle_per_language() {
    let (first, i0) = HumanLessons::get_next_lesson(None, Language::Rust).expect("lesson");
    assert_eq!(i0, 0);
    assert_eq!(first.language, Language::Rust);
    let (_second, i1) = HumanLessons::get_next_lesson(Some(i0), Language::Rust).expect("lesson");
    assert_eq!(i1, 1);
    let (_wrapped, i2) = HumanLessons::get_next_lesson(Some(i1), Language::Rust).expect("lesson");
    assert_eq!(i2, 0);
    let (js, j) = HumanLessons::get_next_lesson(None, Language::JavaScript).expect("lesson");
    assert_eq!(j, 2);
    assert_eq!(js.language, Language::JavaScript);
}

#[test]
fn human_lessons_meet_floors() {
    for lesson in HumanLessons::get_all_lessons() {
        assert!(lesson.content.code_examples.len() >= 2);
        assert!(lesson.content.exercises.len() >= 1);
        for ex in &lesson.content.exercises {
            assert!(ex.test_cases.len() >= 1);
        }
    }
}

#[test]
fn tracker_lesson_lifecycle() {
    let mut t = Tracker::from_progress(Progress::default());
    t.start_lesson(
        Language::Rust,
        Difficulty::Beginner,
        LessonType::Short,
        b"ownership".to_vec(),
        2,
    );
    let st = t.progress.current_lesson.as_ref().expect("lesson in flight");
    assert_eq!(st.current_exercise, 0);
    assert_eq!(st.total_exercises, 2);
    t.complete_exercise();
    t.complete_exercise();
    assert_eq!(t.progress.current_lesson.as_ref().unwrap().current_exercise, 2);
    t.complete_lesson(1700000000);
    assert!(t.progress.current_lesson.is_none());
    assert_eq!(t.progress.statistics.total_lessons_completed, 1);
    assert_eq!(t.progress.completed_lessons.len(), 1);
    assert_eq!(u(&t.progress.completed_lessons[0].completed_at), "1700000000");
    assert_eq!(t.progress.statistics.lessons_by_language[0], (Language::Rust, 1));
    assert_eq!(t.progress.statistics.lessons_by_difficulty[0], (Difficulty::Beginner, 1));
}

#[test]
fn tracker_counts_accumulate_per_key() {
    let mut t = Tracker::from_progress(Progress::default());
    for _ in 0..2 {
        t.start_lesson(
            Language::Rust,
            Difficulty::Beginner,
            LessonType::Short,
            b"a".to_vec(),
            1,
        );
        t.complete_lesson(10);
    }
    t.start_lesson(Language::Cpp, Difficulty::Advanced, LessonType::Long, b"b".to_vec(), 1);
    t.complete_lesson(11);
    assert_eq!(t.progress.statistics.total_lessons_completed, 3);
    assert_eq!(t.progress.statistics.lessons_by_language.len(), 2);
    assert_eq!(t.progress.statistics.lessons_by_language[0], (Language::Rust, 2));
    assert_eq!(t.progress.statistics.lessons_by_language[1], (Language::Cpp, 1));
}

#[test]
fn tracker_journey_lifecycle() {
    let mut t = Tracker::from_progress(Progress::default());
    assert!(t.get_journey_progress().is_none());
    t.start_journey(Language::Cpp, 42);
    let j = t.get_journey_progress().expect("journey exists");
    assert_eq!(j.language, Language::Cpp);
    assert_eq!(j.current_stage, 0);
    assert_eq!(u(&j.started_at), "42");
    t.complete_journey_lesson(1, b"pointers".to_vec());
    t.complete_journey_lesson(1, b"pointers".to_vec());
    let j2 = t.get_journey_progress().expect("journey exists");
    assert_eq!(j2.current_stage, 1);
    assert_eq!(j2.completed_topics.len(), 1);
    assert_eq!(u(&j2.completed_topics[0]), "pointers");
    t.reset_journey();
    assert!(t.get_journey_progress().is_none());
}

#[test]
fn journey_steps_follow_state() {
    let curriculum = Curriculum::rust_curriculum();
    let jm = JourneyManager::new();
    assert!(matches!(jm.next_step(&curriculum), JourneyStep::NoJourney));

    let mut t = Tracker::from_progress(Progress::default());
    t.start_journey(Language::Rust, 0);
    let jm2 = JourneyManager::from_tracker(t);
    match jm2.next_step(&curriculum) {
        JourneyStep::NextTopic { stage_index, topic_index } => {
            assert_eq!(stage_index, 0);
            assert_eq!(topic_index, 0);
        },
        _ => panic!("expected a topic"),
    }
}

#[test]
fn menu_topics_are_fixed() {
    assert_eq!(random_topic_count(), 20);
    assert_eq!(random_topic_at(0), "variables");
    assert_eq!(random_topic_at(19), "debugging");
    assert_eq!(
        compile_topic(Language::Rust),
        "Rust compilation with rustc compiler and Cargo package manager"
    );
}

#[test]
fn journey_stage_complete_and_finished() {
    let curriculum = Curriculum::cpp_curriculum();
    // Topic index past the stage's topics: the stage is complete.
    let mut t = Tracker::from_progress(Progress::default());
    t.start_journey(Language::Cpp, 0);
    for n in 0..4 {
        t.complete_journey_lesson(0, format!("topic {}", n).into_bytes());
    }
    // Mark four topics done by advancing the topic index through records;
    // the stage marker itself stays at 0 here, so the decision still
    // points at stage 0.
    let jm = JourneyManager::from_tracker(t);
    match jm.next_step(&curriculum) {
        JourneyStep::NextTopic { stage_index, topic_index } => {
            assert_eq!(stage_index, 0);
            assert_eq!(topic_index, 0);
        },
        _ => panic!("expected a topic while the index is in range"),
    }

    // A stage marker past the last stage ends the journey.
    let mut t2 = Tracker::from_progress(Progress::default());
    t2.start_journey(Language::Cpp, 0);
    t2.complete_journey_lesson(6, b"done".to_vec());
    let jm2 = JourneyManager::from_tracker(t2);
    assert!(matches!(jm2.next_step(&curriculum), JourneyStep::Completed));
}

#[test]
fn default_progress_is_empty() {
    let p = Progress::default();
    assert_eq!(p.completed_lessons.len(), 0);
    assert!(p.current_lesson.is_none());
    assert_eq!(p.statistics.total_lessons_completed, 0);
    assert!(p.journey_progress.is_none());
}

#[test]
fn rust_hello_world_content_text() {
    let c = HumanLessons::rust_hello_world();
    assert!(u(&c.concept).starts_with("Welcome to Rust!"));
    assert_eq!(u(&c.code_examples[0].code), "fn main() {\n    println!(\"Hello, World!\");\n}");
    assert_eq!(u(&c.exercises[0].title), "Print Your Name");
    assert_eq!(u(&c.exercises[0].test_cases[0].output), "Your Name");
}

#[test]
fn prompt_opens_with_the_template() {
    let p = Ruleset::generate_prompt(
        Language::Cpp,
        Difficulty::Intermediate,
        LessonType::Long,
        b"templates",
    );
    let t = u(&p);
    assert!(t.starts_with("You are a coding education assistant"));
    assert!(t.contains("LANGUAGE: C++"));
    assert!(t.contains("Match the complexity to Intermediate difficulty level"));
    assert!(t.ends_with("Generate the educational lesson now. Output ONLY the JSON object, nothing else:"));
}
