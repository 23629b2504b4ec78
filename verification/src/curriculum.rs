//! The fixed learning-journey curriculum: six stages per language, four
//! topics per stage, difficulty and lesson shape scaling over the course.

use vstd::prelude::*;
use crate::config::{Difficulty, Language, LessonType};
use crate::text::bytes_of;

verus! {

pub struct Stage {
    pub name: Vec<u8>,
    pub description: Vec<u8>,
    pub difficulty: Difficulty,
    pub topics: Vec<Vec<u8>>,
    pub lesson_type: LessonType,
}

pub struct Curriculum {
    pub language: Language,
    pub stages: Vec<Stage>,
}

impl Curriculum {
    /// A curriculum is well formed when it has stages and every stage
    /// has topics.
    pub open spec fn wf(self) -> bool {
        &&& self.stages@.len() >= 1
        &&& forall|i: int|
            0 <= i < self.stages@.len() ==> (#[trigger] self.stages@[i]).topics@.len() >= 1
    }
}

/// Builds one stage from its parts.
fn stage(
    name: &str,
    description: &str,
    difficulty: Difficulty,
    topics: Vec<Vec<u8>>,
    lesson_type: LessonType,
) -> (r: Stage)
    requires
        topics@.len() >= 1,
    ensures
        r.topics@.len() >= 1,
        r.difficulty == difficulty,
        r.lesson_type == lesson_type,
{
    Stage { name: bytes_of(name), description: bytes_of(description), difficulty, topics, lesson_type }
}

/// Four topic strings as byte vectors.
fn topics4(a: &str, b: &str, c: &str, d: &str) -> (r: Vec<Vec<u8>>)
    ensures
        r@.len() == 4,
{
    let mut v: Vec<Vec<u8>> = Vec::new();
    v.push(bytes_of(a));
    v.push(bytes_of(b));
    v.push(bytes_of(c));
    v.push(bytes_of(d));
    v
}

impl Curriculum {
    pub fn get_for_language(language: Language) -> (r: Curriculum)
        ensures
            r.language == language,
            r.wf(),
            r.stages@.len() == 6,
    {
        match language {
            Language::JavaScript => Self::javascript_curriculum(),
            Language::Cpp => Self::cpp_curriculum(),
            Language::Rust => Self::rust_curriculum(),
        }
    }

    pub fn javascript_curriculum() -> (r: Curriculum)
        ensures
            r.language == Language::JavaScript,
            r.wf(),
            r.stages@.len() == 6,
    {
        let mut stages: Vec<Stage> = Vec::new();
        stages.push(
            stage(
                "Getting Started",
                "Learn the basics of JavaScript",
                Difficulty::Beginner,
                topics4("variables", "data types", "operators", "console output"),
                LessonType::Short,
            ),
        );
        stages.push(
            stage(
                "Control Flow",
                "Learn conditionals and loops",
                Difficulty::Beginner,
                topics4("if statements", "for loops", "while loops", "switch statements"),
                LessonType::Medium,
            ),
        );
        stages.push(
            stage(
                "Functions",
                "Learn to write reusable code",
                Difficulty::Beginner,
                topics4(
                    "function basics",
                    "parameters and arguments",
                    "return values",
                    "arrow functions",
                ),
                LessonType::Medium,
            ),
        );
        stages.push(
            stage(
                "Arrays and Objects",
                "Work with data structures",
                Difficulty::Intermediate,
                topics4("arrays", "array methods", "objects", "object methods"),
                LessonType::Medium,
            ),
        );
        stages.push(
            stage(
                "Advanced Concepts",
                "Master advanced JavaScript",
                Difficulty::Intermediate,
                topics4("closures", "promises", "async/await", "classes"),
                LessonType::Long,
            ),
        );
        stages.push(
            stage(
                "Expert Level",
                "Become a JavaScript expert",
                Difficulty::Advanced,
                topics4(
                    "design patterns",
                    "algorithm optimization",
                    "advanced data structures",
                    "performance optimization",
                ),
                LessonType::Long,
            ),
        );
        Curriculum { language: Language::JavaScript, stages }
    }

    pub fn cpp_curriculum() -> (r: Curriculum)
        ensures
            r.language == Language::Cpp,
            r.wf(),
            r.stages@.len() == 6,
    {
        let mut stages: Vec<Stage> = Vec::new();
        stages.push(
            stage(
                "Getting Started",
                "Learn the basics of C++",
                Difficulty::Beginner,
                topics4("variables and types", "input and output", "operators", "basic syntax"),
                LessonType::Short,
            ),
        );
        stages.push(
            stage(
                "Control Structures",
                "Learn conditionals and loops",
                Difficulty::Beginner,
                topics4("if-else statements", "for loops", "while loops", "switch statements"),
                LessonType::Medium,
            ),
        );
        stages.push(
            stage(
                "Functions",
                "Learn to write functions",
                Difficulty::Beginner,
                topics4("function definition", "parameters", "return types", "function overloading"),
                LessonType::Medium,
            ),
        );
        stages.push(
            stage(
                "Arrays and Pointers",
                "Work with arrays and memory",
                Difficulty::Intermediate,
                topics4("arrays", "pointers", "references", "dynamic memory"),
                LessonType::Long,
            ),
        );
        stages.push(
            stage(
                "Object-Oriented Programming",
                "Learn OOP in C++",
                Difficulty::Intermediate,
                topics4("classes", "inheritance", "polymorphism", "templates"),
                LessonType::Long,
            ),
        );
        stages.push(
            stage(
                "Advanced C++",
                "Master advanced C++ features",
                Difficulty::Advanced,
                topics4("STL containers", "smart pointers", "move semantics", "concurrency"),
                LessonType::Long,
            ),
        );
        Curriculum { language: Language::Cpp, stages }
    }

    pub fn rust_curriculum() -> (r: Curriculum)
        ensures
            r.language == Language::Rust,
            r.wf(),
            r.stages@.len() == 6,
    {
        let mut stages: Vec<Stage> = Vec::new();
        stages.push(
            stage(
                "Getting Started",
                "Learn the basics of Rust",
                Difficulty::Beginner,
                topics4(
                    "variables and mutability",
                    "data types",
                    "ownership basics",
                    "functions",
                ),
                LessonType::Short,
            ),
        );
        stages.push(
            stage(
                "Control Flow",
                "Learn conditionals and loops",
                Difficulty::Beginner,
                topics4("if expressions", "loops", "match expressions", "pattern matching"),
                LessonType::Medium,
            ),
        );
        stages.push(
            stage(
                "Ownership and Borrowing",
                "Master Rust's unique features",
                Difficulty::Intermediate,
                topics4("ownership", "borrowing", "references", "lifetimes basics"),
                LessonType::Long,
            ),
        );
        stages.push(
            stage(
                "Structs and Enums",
                "Work with custom types",
                Difficulty::Intermediate,
                topics4("structs", "enums", "methods", "associated functions"),
                LessonType::Medium,
            ),
        );
        stages.push(
            stage(
                "Collections",
                "Work with data structures",
                Difficulty::Intermediate,
                topics4("vectors", "strings", "hash maps", "iterators"),
                LessonType::Medium,
            ),
        );
        stages.push(
            stage(
                "Advanced Rust",
                "Master advanced Rust",
                Difficulty::Advanced,
                topics4("error handling", "generics", "traits", "concurrency"),
                LessonType::Long,
            ),
        );
        Curriculum { language: Language::Rust, stages }
    }

    /// The stage at `stage_index`, present exactly when in range.
    pub fn get_stage(&self, stage_index: usize) -> (r: Option<&Stage>)
        ensures
            r is Some <==> stage_index < self.stages@.len(),
            r matches Some(s) ==> s == &self.stages@[stage_index as int],
    {
        if stage_index < self.stages.len() {
            Some(&self.stages[stage_index])
        } else {
            None
        }
    }

    pub fn total_stages(&self) -> (r: usize)
        ensures
            r == self.stages@.len(),
    {
        self.stages.len()
    }
}

} // verus!
