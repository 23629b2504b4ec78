//! The closed sets of languages, difficulties and lesson shapes the
//! tutor supports, with their display names and per-lesson counts.

use vstd::prelude::*;
use vstd::string::StringSliceAdditionalSpecFns;

verus! {

#[derive(Clone, Copy, Debug, PartialEq, Eq, Structural)]
pub enum Language {
    JavaScript,
    Cpp,
    Rust,
}

#[derive(Clone, Copy, Debug, PartialEq, Eq, Structural)]
pub enum Difficulty {
    Beginner,
    Intermediate,
    Advanced,
}

#[derive(Clone, Copy, Debug, PartialEq, Eq, Structural)]
pub enum LessonType {
    Short,
    Medium,
    Long,
}

impl Language {
    pub open spec fn spec_file_extension(self) -> Seq<char> {
        match self {
            Language::JavaScript => "js"@,
            Language::Cpp => "cpp"@,
            Language::Rust => "rs"@,
        }
    }

    pub open spec fn spec_display_name(self) -> Seq<char> {
        match self {
            Language::JavaScript => "JavaScript"@,
            Language::Cpp => "C++"@,
            Language::Rust => "Rust"@,
        }
    }

    /// The display name as UTF-8 bytes, for building text.
    pub open spec fn display_bytes(self) -> Seq<u8> {
        match self {
            Language::JavaScript => "JavaScript".spec_bytes(),
            Language::Cpp => "C++".spec_bytes(),
            Language::Rust => "Rust".spec_bytes(),
        }
    }

    /// The display name copied into a byte vector.
    pub fn display_name_bytes(&self) -> (r: Vec<u8>)
        ensures
            r@ == self.display_bytes(),
    {
        match self {
            Language::JavaScript => crate::text::bytes_of("JavaScript"),
            Language::Cpp => crate::text::bytes_of("C++"),
            Language::Rust => crate::text::bytes_of("Rust"),
        }
    }

    /// The file extension as UTF-8 bytes.
    pub open spec fn extension_bytes(self) -> Seq<u8> {
        match self {
            Language::JavaScript => "js".spec_bytes(),
            Language::Cpp => "cpp".spec_bytes(),
            Language::Rust => "rs".spec_bytes(),
        }
    }

    /// The file extension copied into a byte vector.
    pub fn file_extension_bytes(&self) -> (r: Vec<u8>)
        ensures
            r@ == self.extension_bytes(),
    {
        match self {
            Language::JavaScript => crate::text::bytes_of("js"),
            Language::Cpp => crate::text::bytes_of("cpp"),
            Language::Rust => crate::text::bytes_of("rs"),
        }
    }

    pub fn file_extension(&self) -> (r: &'static str)
        ensures
            r@ == self.spec_file_extension(),
    {
        match self {
            Language::JavaScript => "js",
            Language::Cpp => "cpp",
            Language::Rust => "rs",
        }
    }

    pub fn display_name(&self) -> (r: &'static str)
        ensures
            r@ == self.spec_display_name(),
    {
        match self {
            Language::JavaScript => "JavaScript",
            Language::Cpp => "C++",
            Language::Rust => "Rust",
        }
    }
}

impl Difficulty {
    /// The display name as UTF-8 bytes, for building text.
    pub open spec fn display_bytes(self) -> Seq<u8> {
        match self {
            Difficulty::Beginner => "Beginner".spec_bytes(),
            Difficulty::Intermediate => "Intermediate".spec_bytes(),
            Difficulty::Advanced => "Advanced".spec_bytes(),
        }
    }

    /// The display name copied into a byte vector.
    pub fn display_name_bytes(&self) -> (r: Vec<u8>)
        ensures
            r@ == self.display_bytes(),
    {
        match self {
            Difficulty::Beginner => crate::text::bytes_of("Beginner"),
            Difficulty::Intermediate => crate::text::bytes_of("Intermediate"),
            Difficulty::Advanced => crate::text::bytes_of("Advanced"),
        }
    }

    pub open spec fn spec_display_name(self) -> Seq<char> {
        match self {
            Difficulty::Beginner => "Beginner"@,
            Difficulty::Intermediate => "Intermediate"@,
            Difficulty::Advanced => "Advanced"@,
        }
    }

    pub fn display_name(&self) -> (r: &'static str)
        ensures
            r@ == self.spec_display_name(),
    {
        match self {
            Difficulty::Beginner => "Beginner",
            Difficulty::Intermediate => "Intermediate",
            Difficulty::Advanced => "Advanced",
        }
    }
}

impl LessonType {
    /// The display name as UTF-8 bytes, for building text.
    pub open spec fn display_bytes(self) -> Seq<u8> {
        match self {
            LessonType::Short => "Short".spec_bytes(),
            LessonType::Medium => "Medium".spec_bytes(),
            LessonType::Long => "Long".spec_bytes(),
        }
    }

    /// The display name copied into a byte vector.
    pub fn display_name_bytes(&self) -> (r: Vec<u8>)
        ensures
            r@ == self.display_bytes(),
    {
        match self {
            LessonType::Short => crate::text::bytes_of("Short"),
            LessonType::Medium => crate::text::bytes_of("Medium"),
            LessonType::Long => crate::text::bytes_of("Long"),
        }
    }

    pub open spec fn spec_display_name(self) -> Seq<char> {
        match self {
            LessonType::Short => "Short"@,
            LessonType::Medium => "Medium"@,
            LessonType::Long => "Long"@,
        }
    }

    pub open spec fn spec_concept_count(self) -> nat {
        match self {
            LessonType::Short => 1,
            LessonType::Medium => 2,
            LessonType::Long => 3,
        }
    }

    pub open spec fn spec_exercise_count(self) -> nat {
        match self {
            LessonType::Short => 1,
            LessonType::Medium => 3,
            LessonType::Long => 5,
        }
    }

    pub fn display_name(&self) -> (r: &'static str)
        ensures
            r@ == self.spec_display_name(),
    {
        match self {
            LessonType::Short => "Short",
            LessonType::Medium => "Medium",
            LessonType::Long => "Long",
        }
    }

    pub fn concept_count(&self) -> (r: usize)
        ensures
            r == self.spec_concept_count(),
    {
        match self {
            LessonType::Short => 1,
            LessonType::Medium => 2,
            LessonType::Long => 3,
        }
    }

    pub fn exercise_count(&self) -> (r: usize)
        ensures
            r == self.spec_exercise_count(),
    {
        match self {
            LessonType::Short => 1,
            LessonType::Medium => 3,
            LessonType::Long => 5,
        }
    }
}

} // verus!
