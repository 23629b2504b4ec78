//! Hand-written lessons, served in order per language with wrap-around.
//! The list is fixed: two Rust lessons, one JavaScript, one C++.

use vstd::prelude::*;
use crate::config::{Difficulty, Language, LessonType};
use crate::content::{CodeExample, Exercise, GeneratedContent, TestCase};
use crate::text::bytes_of;

verus! {

pub struct HumanLesson {
    pub content: GeneratedContent,
    pub language: Language,
    pub difficulty: Difficulty,
    pub lesson_type: LessonType,
}

pub struct HumanLessons;

/// A one-test exercise whose single case has no input.
fn output_exercise(title: &str, description: &str, hints: Vec<Vec<u8>>, output: &str) -> (r:
    Exercise)
    ensures
        r@.test_cases.len() == 1,
        r@.test_cases[0].input.len() == 0,
        r@.example_input is None,
        r@.example_output is Some,
{
    let mut test_cases: Vec<TestCase> = Vec::new();
    test_cases.push(TestCase { input: Vec::new(), output: bytes_of(output) });
    Exercise {
        title: bytes_of(title),
        description: bytes_of(description),
        hints,
        example_input: None,
        example_output: Some(bytes_of(output)),
        test_cases,
    }
}

/// The two standard exercises every hand-written lesson carries.
fn standard_exercises(first: Exercise, second: Exercise) -> (r: Vec<Exercise>)
    requires
        first@.test_cases.len() >= 1,
        second@.test_cases.len() >= 1,
    ensures
        r@.len() == 2,
        forall|i: int| 0 <= i < 2 ==> (#[trigger] r@[i])@.test_cases.len() >= 1,
{
    let mut v: Vec<Exercise> = Vec::new();
    v.push(first);
    v.push(second);
    v
}

/// Two hint strings.
fn hints2(a: &str, b: &str) -> (r: Vec<Vec<u8>>)
    ensures
        r@.len() == 2,
{
    let mut v: Vec<Vec<u8>> = Vec::new();
    v.push(bytes_of(a));
    v.push(bytes_of(b));
    v
}

/// Three hint strings.
fn hints3(a: &str, b: &str, c: &str) -> (r: Vec<Vec<u8>>)
    ensures
        r@.len() == 3,
{
    let mut v: Vec<Vec<u8>> = Vec::new();
    v.push(bytes_of(a));
    v.push(bytes_of(b));
    v.push(bytes_of(c));
    v
}

/// Assembles a lesson content object and shows it meets the floors.
fn lesson_content(
    concept: &str,
    steps: Vec<Vec<u8>>,
    examples: Vec<CodeExample>,
    syntax_guide: &str,
    patterns: Vec<Vec<u8>>,
    exercises: Vec<Exercise>,
) -> (r: GeneratedContent)
    requires
        examples@.len() >= 2,
        exercises@.len() >= 1,
        forall|i: int|
            0 <= i < exercises@.len() ==> (#[trigger] exercises@[i])@.test_cases.len() >= 1,
    ensures
        r@.wf(),
        r@.code_examples.len() == examples@.len(),
        r@.exercises.len() == exercises@.len(),
{
    let r = GeneratedContent {
        concept: bytes_of(concept),
        step_by_step: steps,
        code_examples: examples,
        syntax_guide: bytes_of(syntax_guide),
        common_patterns: patterns,
        exercises,
    };
    proof {
        assert forall|i: int|
            0 <= i < r@.exercises.len() implies (#[trigger] r@.exercises[i]).has_tests() by {
            assert(r@.exercises[i] == r.exercises@.map_values(|e: Exercise| e@)[i]);
        }
    }
    r
}

/// Two code examples.
fn examples2(c1: &str, e1: &str, c2: &str, e2: &str) -> (r: Vec<CodeExample>)
    ensures
        r@.len() == 2,
{
    let mut v: Vec<CodeExample> = Vec::new();
    v.push(CodeExample { code: bytes_of(c1), explanation: bytes_of(e1) });
    v.push(CodeExample { code: bytes_of(c2), explanation: bytes_of(e2) });
    v
}

impl HumanLessons {
    pub fn rust_hello_world() -> (r: GeneratedContent)
        ensures
            r@.wf(),
            r@.exercises.len() == 2,
    {
        let steps = hints3(
            "Rust programs start with a main function, which is the entry point of your program.",
            "The println! macro is used to print text to the console. The exclamation mark indicates it's a macro, not a regular function.",
            "String literals in Rust are enclosed in double quotes. The println! macro will output this text followed by a newline.",
        );
        let examples = examples2(
            "fn main() {\n    println!(\"Hello, World!\");\n}",
            "This is the simplest Rust program. It defines a main function and prints 'Hello, World!' to the console.",
            "fn main() {\n    let message = \"Hello, Rust!\";\n    println!(\"{}\", message);\n}",
            "This example shows how to store a string in a variable and then print it using println! with formatting.",
        );
        let patterns = hints3(
            "Always start with fn main()",
            "Use println! for console output",
            "End statements with semicolons",
        );
        let ex1 = output_exercise(
            "Print Your Name",
            "Write a program that prints your name to the console. Use println! to output the text.",
            hints3(
                "Start with fn main()",
                "Use println!(\"Your Name\") inside main",
                "Don't forget the semicolon at the end",
            ),
            "Your Name",
        );
        let ex2 = output_exercise(
            "Print Multiple Messages",
            "Create a program that prints three different messages, each on a new line.",
            hints2(
                "You can use multiple println! statements",
                "Each println! will print on a new line automatically",
            ),
            "First message\nSecond message\nThird message",
        );
        lesson_content(
            "Welcome to Rust! In this lesson, you'll learn how to write your first Rust program. The 'Hello, World!' program is a traditional first program that prints a message to the console.",
            steps,
            examples,
            "Key Rust syntax:\n- fn main() defines the entry point\n- println!() is a macro for printing\n- Semicolons end statements\n- Curly braces {} define code blocks",
            patterns,
            standard_exercises(ex1, ex2),
        )
    }

    pub fn rust_leeson_two() -> (r: GeneratedContent)
        ensures
            r@.wf(),
            r@.exercises.len() == 2,
    {
        let steps = hints3(
            "Rust programs start with a main function, which is the entry point of your program.",
            "The println! macro is used to print text to the console. The exclamation mark indicates it's a macro, not a regular function.",
            "String literals in Rust are enclosed in double quotes. The println! macro will output this text followed by a newline.",
        );
        let examples = examples2(
            "fn main() {\n    println!(\"Hello, World!\");\n}",
            "This is the simplest Rust program. It defines a main function and prints 'Hello, World!' to the console.",
            "fn main() {\n    let message = \"Hello, Rust!\";\n    println!(\"{}\", message);\n}",
            "This example shows how to store a string in a variable and then print it using println! with formatting.",
        );
        let patterns = hints3(
            "Always start with fn main()",
            "Use println! for console output",
            "End statements with semicolons",
        );
        let ex1 = output_exercise(
            "Print Your Name",
            "Write a program that prints your name to the console. Use println! to output the text.",
            hints3(
                "Start with fn main()",
                "Use println!(\"Your Name\") inside main",
                "Don't forget the semicolon at the end",
            ),
            "Your Name",
        );
        let ex2 = output_exercise(
            "Print Multiple Messages",
            "Create a program that prints three different messages, each on a new line.",
            hints2(
                "You can use multiple println! statements",
                "Each println! will print on a new line automatically",
            ),
            "First message\nSecond message\nThird message",
        );
        lesson_content(
            "Welcome to Rust! TEST TEST console.",
            steps,
            examples,
            "Key Rust syntax:\n- fn main() defines the entry point\n- println!() is a macro for printing\n- Semicolons end statements\n- Curly braces {} define code blocks",
            patterns,
            standard_exercises(ex1, ex2),
        )
    }

    pub fn javascript_hello_world() -> (r: GeneratedContent)
        ensures
            r@.wf(),
            r@.exercises.len() == 2,
    {
        let steps = hints3(
            "JavaScript programs can be written directly without a main function (though Node.js scripts typically start executing from the top).",
            "The console.log() function is used to print text to the console in JavaScript.",
            "JavaScript statements end with semicolons, though they are often optional.",
        );
        let examples = examples2(
            "console.log('Hello, World!');",
            "This is the simplest JavaScript program. It uses console.log to print 'Hello, World!' to the console.",
            "const message = 'Hello, JavaScript!';\nconsole.log(message);",
            "This example shows how to store a string in a constant variable and then print it using console.log.",
        );
        let patterns = hints3(
            "Use console.log() for output",
            "const for constants, let for variables",
            "Strings can use 'single' or \"double\" quotes",
        );
        let ex1 = output_exercise(
            "Print Your Name",
            "Write a program that prints your name to the console using console.log.",
            hints2("Use console.log('Your Name')", "Don't forget the semicolon"),
            "Your Name",
        );
        let ex2 = output_exercise(
            "Print Multiple Messages",
            "Create a program that prints three different messages, each on a new line.",
            hints2(
                "You can use multiple console.log() statements",
                "Each console.log() will print on a new line automatically",
            ),
            "First message\nSecond message\nThird message",
        );
        lesson_content(
            "Welcome to JavaScript! In this lesson, you'll learn how to write your first JavaScript program. JavaScript is a versatile language that runs in browsers and on servers with Node.js.",
            steps,
            examples,
            "Key JavaScript syntax:\n- console.log() prints to console\n- const declares a constant variable\n- Semicolons are optional but recommended\n- Strings can use single or double quotes",
            patterns,
            standard_exercises(ex1, ex2),
        )
    }

    pub fn cpp_hello_world() -> (r: GeneratedContent)
        ensures
            r@.wf(),
            r@.exercises.len() == 2,
    {
        let mut steps = hints3(
            "C++ programs need to include necessary headers. For input/output, we use <iostream>.",
            "The main() function is the entry point of every C++ program. It returns an int (0 for success).",
            "std::cout is used to output text to the console. The << operator is used to send data to cout.",
        );
        steps.push(bytes_of("std::endl or '\\n' is used to add a newline after the output."));
        let examples = examples2(
            "#include <iostream>\n\nint main() {\n    std::cout << \"Hello, World!\" << std::endl;\n    return 0;\n}",
            "This is the simplest C++ program. It includes iostream, defines main, and uses std::cout to print 'Hello, World!'.",
            "#include <iostream>\n\nint main() {\n    std::string message = \"Hello, C++!\";\n    std::cout << message << std::endl;\n    return 0;\n}",
            "This example shows how to store a string in a variable and then print it using std::cout.",
        );
        let patterns = hints3(
            "Always include necessary headers",
            "Use std::cout << for output",
            "Return 0 from main() on success",
        );
        let ex1 = output_exercise(
            "Print Your Name",
            "Write a program that prints your name to the console using std::cout.",
            hints3(
                "Start with #include <iostream>",
                "Use int main() and return 0",
                "Use std::cout << \"Your Name\" << std::endl;",
            ),
            "Your Name",
        );
        let ex2 = output_exercise(
            "Print Multiple Messages",
            "Create a program that prints three different messages, each on a new line.",
            hints2(
                "You can use multiple std::cout statements",
                "Use std::endl or '\\n' for newlines",
            ),
            "First message\nSecond message\nThird message",
        );
        lesson_content(
            "Welcome to C++! In this lesson, you'll learn how to write your first C++ program. C++ is a powerful systems programming language with a rich standard library.",
            steps,
            examples,
            "Key C++ syntax:\n- #include <iostream> for input/output\n- int main() is the entry point\n- std::cout << for output\n- return 0 indicates success\n- Semicolons end statements",
            patterns,
            standard_exercises(ex1, ex2),
        )
    }

    /// The fixed lesson list: two Rust lessons, then JavaScript, then C++.
    pub fn get_all_lessons() -> (r: Vec<HumanLesson>)
        ensures
            r@.len() == 4,
            r@[0].language == Language::Rust,
            r@[1].language == Language::Rust,
            r@[2].language == Language::JavaScript,
            r@[3].language == Language::Cpp,
            forall|i: int| 0 <= i < 4 ==> (#[trigger] r@[i]).content@.wf(),
    {
        let mut v: Vec<HumanLesson> = Vec::new();
        v.push(
            HumanLesson {
                content: Self::rust_hello_world(),
                language: Language::Rust,
                difficulty: Difficulty::Beginner,
                lesson_type: LessonType::Short,
            },
        );
        v.push(
            HumanLesson {
                content: Self::rust_leeson_two(),
                language: Language::Rust,
                difficulty: Difficulty::Beginner,
                lesson_type: LessonType::Short,
            },
        );
        v.push(
            HumanLesson {
                content: Self::javascript_hello_world(),
                language: Language::JavaScript,
                difficulty: Difficulty::Beginner,
                lesson_type: LessonType::Short,
            },
        );
        v.push(
            HumanLesson {
                content: Self::cpp_hello_world(),
                language: Language::Cpp,
                difficulty: Difficulty::Beginner,
                lesson_type: LessonType::Short,
            },
        );
        v
    }

    /// The index served after `last`, within the fixed list: each
    /// language cycles through its own lessons and wraps around.
    pub open spec fn next_lesson_index(language: Language, last: Option<int>) -> int {
        match language {
            Language::Rust => match last {
                Some(i) => if i == 0 {
                    1
                } else {
                    0
                },
                None => 0,
            },
            Language::JavaScript => 2,
            Language::Cpp => 3,
        }
    }

    /// The next hand-written lesson for a language, and its index in the
    /// full list.
    pub fn get_next_lesson(last_index: Option<usize>, language: Language) -> (r: Option<(
        HumanLesson,
        usize,
    )>)
        ensures
            r is Some,
            r matches Some(p) ==> ({
                let last = match last_index {
                    Some(i) => Some(i as int),
                    None => None::<int>,
                };
                &&& p.1 as int == Self::next_lesson_index(language, last)
                &&& p.0.language == language
                &&& p.0.content@.wf()
            }),
    {
        let all = Self::get_all_lessons();
        let idx: usize = match language {
            Language::Rust => match last_index {
                Some(i) => if i == 0 {
                    1
                } else {
                    0
                },
                None => 0,
            },
            Language::JavaScript => 2,
            Language::Cpp => 3,
        };
        let mut rest = all;
        let mut k: usize = 0;
        while k < idx
            invariant
                k <= idx,
                idx < 4,
                rest@.len() == 4 - k,
                forall|i: int| 0 <= i < rest@.len() ==> (#[trigger] rest@[i]).content@.wf(),
                rest@[idx - k].language == language,
            decreases idx - k,
        {
            let ghost pre = rest@;
            let _dropped = rest.remove(0);
            proof {
                assert(rest@ =~= pre.remove(0));
            }
            k += 1;
        }
        let lesson = rest.remove(0);
        Some((lesson, idx))
    }
}

} // verus!
