//! Deterministic fallback synthesis: curated per-topic content and
//! test-case generation for the fallback exercise.  Everything here is a
//! pure function of its arguments, so synthesized lessons are
//! reproducible.

use vstd::prelude::*;
use crate::config::Language;
use crate::content::{
    texts_view, CodeExample, CodeExampleV, Exercise, ExerciseV, GeneratedContent,
    GeneratedContentV, TestCase, TestCaseV,
};
use crate::scan::{find_byte_from, find_pat, find_spec, first_byte};
use crate::text::{
    bytes_of, bytes_of_slice, contains_sub, dec_spec, has_sub, lower_bytes, push_bytes, push_dec,
    replace_all, replace_spec, subvec, to_lower, trim, trim_spec,
};
use vstd::string::StringSliceAdditionalSpecFns;

verus! {

/// The model-backed generator.  Network access lives outside the engine;
/// this type carries the deterministic recovery and synthesis logic.
pub struct Generator;

/// Whether an exercise description announces that input is read from
/// standard input.
pub open spec fn wants_input(desc: Seq<u8>) -> bool {
    ||| has_sub(lower_bytes(desc), "read input".spec_bytes())
    ||| has_sub(lower_bytes(desc), "read from stdin".spec_bytes())
    ||| has_sub(lower_bytes(desc), "input from".spec_bytes())
}

/// The generated test cases: three distinct inputs with the sentinel
/// placeholders substituted when the description asks for input, and
/// three identical output-only cases otherwise.
pub open spec fn spec_gen_tests(desc: Seq<u8>, out: Seq<u8>) -> Seq<TestCaseV> {
    if wants_input(desc) {
        seq![
            TestCaseV {
                input: "5".spec_bytes(),
                output: replace_spec(
                    replace_spec(out, "42".spec_bytes(), "5".spec_bytes()),
                    "test".spec_bytes(),
                    "5".spec_bytes(),
                ),
            },
            TestCaseV {
                input: "10".spec_bytes(),
                output: replace_spec(
                    replace_spec(out, "42".spec_bytes(), "10".spec_bytes()),
                    "test".spec_bytes(),
                    "10".spec_bytes(),
                ),
            },
            TestCaseV { input: "42".spec_bytes(), output: out },
        ]
    } else {
        seq![
            TestCaseV { input: Seq::<u8>::empty(), output: out },
            TestCaseV { input: Seq::<u8>::empty(), output: out },
            TestCaseV { input: Seq::<u8>::empty(), output: out },
        ]
    }
}

pub open spec fn is_random_topic(t: Seq<u8>) -> bool {
    has_sub(t, "random".spec_bytes())
}

pub open spec fn is_variable_topic(t: Seq<u8>) -> bool {
    has_sub(t, "variable".spec_bytes()) || has_sub(t, "mutability".spec_bytes())
}

pub open spec fn is_control_topic(t: Seq<u8>) -> bool {
    ||| has_sub(t, "control flow".spec_bytes())
    ||| has_sub(t, "controlflow".spec_bytes())
    ||| has_sub(t, "condition".spec_bytes())
    ||| has_sub(t, "if".spec_bytes())
    ||| has_sub(t, "else".spec_bytes())
}

/// The curated per-language, per-topic syntax guide and example pair,
/// first match wins; empty for topics outside the table.
pub open spec fn topic_content_spec(
    language: Language,
    topic: Seq<u8>,
) -> (Seq<u8>, Seq<CodeExampleV>) {
    let t = lower_bytes(topic);
    match language {
        Language::Rust => {
            if is_random_topic(t) {
                (
        "To generate random numbers in Rust, use the `rand` crate. Use `use rand::Rng;` and `let mut rng = rand::thread_rng();` to create a random number generator. Generate random numbers with `rng.gen_range(1..=100)` for a range, or `rng.gen::<i32>()` for a random integer.".spec_bytes(),
        seq![
            CodeExampleV { code: "use rand::Rng;\n\nfn main() {\n    let mut rng = rand::thread_rng();\n    let random_num = rng.gen_range(1..=100);\n    println!(\"Random number: {}\", random_num);\n}".spec_bytes(), explanation: "This example shows how to generate a random number between 1 and 100 using the rand crate. The rand dependency will be automatically added to Cargo.toml when you run your code.".spec_bytes() },
            CodeExampleV { code: "use rand::Rng;\n\nfn main() {\n    let mut rng = rand::thread_rng();\n    let random_float = rng.gen::<f64>();\n    println!(\"Random float: {}\", random_float);\n}".spec_bytes(), explanation: "This example shows how to generate a random float using gen::<f64>(). This generates a random floating-point number between 0.0 and 1.0.".spec_bytes() },
        ],
    )
            } else if is_variable_topic(t) {
                (
        "In Rust, declare variables with `let`. By default, variables are immutable. Use `let mut` to make them mutable. For example: `let x = 5;` creates an immutable variable, while `let mut y = 5;` creates a mutable one. Attempting to modify an immutable variable will cause a compile error.".spec_bytes(),
        seq![
            CodeExampleV { code: "fn main() {\n    let name = \"Alice\";\n    println!(\"Hello, {}!\", name);\n}".spec_bytes(), explanation: "This declares an immutable variable `name` and prints it. The variable cannot be changed after declaration.".spec_bytes() },
            CodeExampleV { code: "fn main() {\n    let mut count = 0;\n    count += 1;\n    println!(\"Count: {}\", count);\n}".spec_bytes(), explanation: "This example shows a mutable variable using `let mut`. The variable can be modified after declaration.".spec_bytes() },
        ],
    )
            } else if is_control_topic(t) {
                (
        "Control flow in Rust uses `if`, `else if`, and `else` statements. The condition must be a boolean expression. You can also use `match` for pattern matching. For example: `if x > 5 { println!(\"Greater\"); } else { println!(\"Less or equal\"); }`".spec_bytes(),
        seq![
            CodeExampleV { code: "fn main() {\n    let number = 7;\n    if number > 5 {\n        println!(\"The number is greater than 5\");\n    } else {\n        println!(\"The number is 5 or less\");\n    }\n}".spec_bytes(), explanation: "This example demonstrates a basic if-else statement that checks if a number is greater than 5.".spec_bytes() },
            CodeExampleV { code: "fn main() {\n    let score = 85;\n    if score >= 90 {\n        println!(\"Grade: A\");\n    } else if score >= 80 {\n        println!(\"Grade: B\");\n    } else {\n        println!(\"Grade: C\");\n    }\n}".spec_bytes(), explanation: "This example shows an if-else-if chain with multiple conditions to determine a grade based on score.".spec_bytes() },
        ],
    )
            } else {
                (Seq::<u8>::empty(), Seq::<CodeExampleV>::empty())
            }
        },
        Language::JavaScript => {
            if is_random_topic(t) {
                (
        "In JavaScript, use `Math.random()` to generate a random number between 0 and 1. Multiply by a range and use `Math.floor()` to get integers. For example: `Math.floor(Math.random() * 100) + 1` generates a number between 1 and 100.".spec_bytes(),
        seq![
            CodeExampleV { code: "const randomNum = Math.floor(Math.random() * 100) + 1;\nconsole.log(`Random number: ${randomNum}`);".spec_bytes(), explanation: "This generates a random integer between 1 and 100 using Math.random().".spec_bytes() },
            CodeExampleV { code: "function getRandomInRange(min, max) {\n    return Math.floor(Math.random() * (max - min + 1)) + min;\n}\nconst num = getRandomInRange(10, 20);\nconsole.log(`Random number between 10 and 20: ${num}`);".spec_bytes(), explanation: "This example shows a reusable function to generate random numbers within a custom range.".spec_bytes() },
        ],
    )
            } else if is_control_topic(t) {
                (
        "Control flow in JavaScript uses `if`, `else if`, and `else` statements. Conditions can be any expression that evaluates to a truthy or falsy value. For example: `if (x > 5) { console.log('Greater'); } else { console.log('Less or equal'); }`".spec_bytes(),
        seq![
            CodeExampleV { code: "const number = 7;\nif (number > 5) {\n    console.log('The number is greater than 5');\n} else {\n    console.log('The number is 5 or less');\n}".spec_bytes(), explanation: "This example demonstrates a basic if-else statement that checks if a number is greater than 5.".spec_bytes() },
            CodeExampleV { code: "const age = 18;\nif (age >= 18) {\n    console.log('You are an adult');\n} else if (age >= 13) {\n    console.log('You are a teenager');\n} else {\n    console.log('You are a child');\n}".spec_bytes(), explanation: "This example shows an if-else-if chain with multiple conditions to categorize age groups.".spec_bytes() },
        ],
    )
            } else {
                (Seq::<u8>::empty(), Seq::<CodeExampleV>::empty())
            }
        },
        Language::Cpp => {
            if is_random_topic(t) {
                (
        "In C++, include `<random>` and `<ctime>`. Use `std::mt19937` for the random number generator, seed it with `std::random_device{}()`, and use `std::uniform_int_distribution<>` to generate numbers in a range. For example: `std::uniform_int_distribution<> dis(1, 100);` then `dis(gen)` to get a random number.".spec_bytes(),
        seq![
            CodeExampleV { code: "#include <iostream>\n#include <random>\n\nint main() {\n    std::random_device rd;\n    std::mt19937 gen(rd());\n    std::uniform_int_distribution<> dis(1, 100);\n    int random_num = dis(gen);\n    std::cout << \"Random number: \" << random_num << std::endl;\n    return 0;\n}".spec_bytes(), explanation: "This example shows how to generate a random number between 1 and 100 using C++'s random library.".spec_bytes() },
            CodeExampleV { code: "#include <iostream>\n#include <random>\n\nint main() {\n    std::random_device rd;\n    std::mt19937 gen(rd());\n    std::uniform_real_distribution<double> dis(0.0, 1.0);\n    double random_float = dis(gen);\n    std::cout << \"Random float: \" << random_float << std::endl;\n    return 0;\n}".spec_bytes(), explanation: "This example shows how to generate a random floating-point number between 0.0 and 1.0 using uniform_real_distribution.".spec_bytes() },
        ],
    )
            } else if is_control_topic(t) {
                (
        "Control flow in C++ uses `if`, `else if`, and `else` statements. Conditions must evaluate to a boolean value. For example: `if (x > 5) { std::cout << \"Greater\"; } else { std::cout << \"Less or equal\"; }`".spec_bytes(),
        seq![
            CodeExampleV { code: "#include <iostream>\n\nint main() {\n    int number = 7;\n    if (number > 5) {\n        std::cout << \"The number is greater than 5\" << std::endl;\n    } else {\n        std::cout << \"The number is 5 or less\" << std::endl;\n    }\n    return 0;\n}".spec_bytes(), explanation: "This example demonstrates a basic if-else statement that checks if a number is greater than 5.".spec_bytes() },
            CodeExampleV { code: "#include <iostream>\n\nint main() {\n    int temperature = 25;\n    if (temperature > 30) {\n        std::cout << \"It's hot\" << std::endl;\n    } else if (temperature > 20) {\n        std::cout << \"It's warm\" << std::endl;\n    } else {\n        std::cout << \"It's cool\" << std::endl;\n    }\n    return 0;\n}".spec_bytes(), explanation: "This example shows an if-else-if chain with multiple conditions to categorize temperature ranges.".spec_bytes() },
        ],
    )
            } else {
                (Seq::<u8>::empty(), Seq::<CodeExampleV>::empty())
            }
        },
    }
}

impl Generator {
    /// Generates the test cases of a fallback exercise from its
    /// description and example output.
    pub fn generate_test_cases_for_exercise(
        _language: Language,
        description: &[u8],
        example_output: &[u8],
    ) -> (r: Vec<TestCase>)
        ensures
            r@.map_values(|t: TestCase| t@) == spec_gen_tests(description@, example_output@),
    {
        let low: Vec<u8> = to_lower(description);
        let p1 = bytes_of("read input");
        let p2 = bytes_of("read from stdin");
        let p3 = bytes_of("input from");
        let has_input: bool = contains_sub(low.as_slice(), p1.as_slice())
            || contains_sub(low.as_slice(), p2.as_slice())
            || contains_sub(low.as_slice(), p3.as_slice());
        let mut r: Vec<TestCase> = Vec::new();
        if has_input {
            let s5 = bytes_of("5");
            let s10 = bytes_of("10");
            let s42 = bytes_of("42");
            let stest = bytes_of("test");
            let o1 = replace_all(
                replace_all(example_output, s42.as_slice(), s5.as_slice()).as_slice(),
                stest.as_slice(),
                s5.as_slice(),
            );
            let o2 = replace_all(
                replace_all(example_output, s42.as_slice(), s10.as_slice()).as_slice(),
                stest.as_slice(),
                s10.as_slice(),
            );
            r.push(TestCase { input: s5, output: o1 });
            r.push(TestCase { input: s10, output: o2 });
            r.push(TestCase { input: s42, output: bytes_of_slice(example_output) });
        } else {
            r.push(TestCase { input: Vec::new(), output: bytes_of_slice(example_output) });
            r.push(TestCase { input: Vec::new(), output: bytes_of_slice(example_output) });
            r.push(TestCase { input: Vec::new(), output: bytes_of_slice(example_output) });
        }
        proof {
            assert(r@.map_values(|t: TestCase| t@) =~= spec_gen_tests(
                description@,
                example_output@,
            ));
        }
        r
    }

    /// The curated topic table: syntax guide prose and two code examples
    /// for the topics it knows, empty otherwise.
    pub fn generate_topic_specific_content(language: Language, topic: &[u8]) -> (r: (
        Vec<u8>,
        Vec<CodeExample>,
    ))
        ensures
            r.0@ == topic_content_spec(language, topic@).0,
            r.1@.map_values(|e: CodeExample| e@) == topic_content_spec(language, topic@).1,
    {
    let low: Vec<u8> = to_lower(topic);
    let pat_random = bytes_of("random");
    let pat_variable = bytes_of("variable");
    let pat_mutability = bytes_of("mutability");
    let pat_cf1 = bytes_of("control flow");
    let pat_cf2 = bytes_of("controlflow");
    let pat_cf3 = bytes_of("condition");
    let pat_cf4 = bytes_of("if");
    let pat_cf5 = bytes_of("else");
    let random_hit: bool = contains_sub(low.as_slice(), pat_random.as_slice());
    let variable_hit: bool = contains_sub(low.as_slice(), pat_variable.as_slice())
        || contains_sub(low.as_slice(), pat_mutability.as_slice());
    let control_hit: bool = contains_sub(low.as_slice(), pat_cf1.as_slice())
        || contains_sub(low.as_slice(), pat_cf2.as_slice())
        || contains_sub(low.as_slice(), pat_cf3.as_slice())
        || contains_sub(low.as_slice(), pat_cf4.as_slice())
        || contains_sub(low.as_slice(), pat_cf5.as_slice());
    match language {
        Language::Rust => {
            if random_hit {
        let mut v: Vec<CodeExample> = Vec::new();
        v.push(CodeExample { code: bytes_of("use rand::Rng;\n\nfn main() {\n    let mut rng = rand::thread_rng();\n    let random_num = rng.gen_range(1..=100);\n    println!(\"Random number: {}\", random_num);\n}"), explanation: bytes_of("This example shows how to generate a random number between 1 and 100 using the rand crate. The rand dependency will be automatically added to Cargo.toml when you run your code.") });
        v.push(CodeExample { code: bytes_of("use rand::Rng;\n\nfn main() {\n    let mut rng = rand::thread_rng();\n    let random_float = rng.gen::<f64>();\n    println!(\"Random float: {}\", random_float);\n}"), explanation: bytes_of("This example shows how to generate a random float using gen::<f64>(). This generates a random floating-point number between 0.0 and 1.0.") });
        let g = bytes_of("To generate random numbers in Rust, use the `rand` crate. Use `use rand::Rng;` and `let mut rng = rand::thread_rng();` to create a random number generator. Generate random numbers with `rng.gen_range(1..=100)` for a range, or `rng.gen::<i32>()` for a random integer.");
        proof {
            assert(v@.map_values(|e: CodeExample| e@) =~= topic_content_spec(language, topic@).1);
        }
        (g, v)
    }
            else if variable_hit {
        let mut v: Vec<CodeExample> = Vec::new();
        v.push(CodeExample { code: bytes_of("fn main() {\n    let name = \"Alice\";\n    println!(\"Hello, {}!\", name);\n}"), explanation: bytes_of("This declares an immutable variable `name` and prints it. The variable cannot be changed after declaration.") });
        v.push(CodeExample { code: bytes_of("fn main() {\n    let mut count = 0;\n    count += 1;\n    println!(\"Count: {}\", count);\n}"), explanation: bytes_of("This example shows a mutable variable using `let mut`. The variable can be modified after declaration.") });
        let g = bytes_of("In Rust, declare variables with `let`. By default, variables are immutable. Use `let mut` to make them mutable. For example: `let x = 5;` creates an immutable variable, while `let mut y = 5;` creates a mutable one. Attempting to modify an immutable variable will cause a compile error.");
        proof {
            assert(v@.map_values(|e: CodeExample| e@) =~= topic_content_spec(language, topic@).1);
        }
        (g, v)
    }
            else if control_hit {
        let mut v: Vec<CodeExample> = Vec::new();
        v.push(CodeExample { code: bytes_of("fn main() {\n    let number = 7;\n    if number > 5 {\n        println!(\"The number is greater than 5\");\n    } else {\n        println!(\"The number is 5 or less\");\n    }\n}"), explanation: bytes_of("This example demonstrates a basic if-else statement that checks if a number is greater than 5.") });
        v.push(CodeExample { code: bytes_of("fn main() {\n    let score = 85;\n    if score >= 90 {\n        println!(\"Grade: A\");\n    } else if score >= 80 {\n        println!(\"Grade: B\");\n    } else {\n        println!(\"Grade: C\");\n    }\n}"), explanation: bytes_of("This example shows an if-else-if chain with multiple conditions to determine a grade based on score.") });
        let g = bytes_of("Control flow in Rust uses `if`, `else if`, and `else` statements. The condition must be a boolean expression. You can also use `match` for pattern matching. For example: `if x > 5 { println!(\"Greater\"); } else { println!(\"Less or equal\"); }`");
        proof {
            assert(v@.map_values(|e: CodeExample| e@) =~= topic_content_spec(language, topic@).1);
        }
        (g, v)
    }
            else {
                let r: (Vec<u8>, Vec<CodeExample>) = (Vec::new(), Vec::new());
                proof {
                    assert(r.1@.map_values(|e: CodeExample| e@) =~= Seq::<CodeExampleV>::empty());
                }
                r
            }
        },
        Language::JavaScript => {
            if random_hit {
        let mut v: Vec<CodeExample> = Vec::new();
        v.push(CodeExample { code: bytes_of("const randomNum = Math.floor(Math.random() * 100) + 1;\nconsole.log(`Random number: ${randomNum}`);"), explanation: bytes_of("This generates a random integer between 1 and 100 using Math.random().") });
        v.push(CodeExample { code: bytes_of("function getRandomInRange(min, max) {\n    return Math.floor(Math.random() * (max - min + 1)) + min;\n}\nconst num = getRandomInRange(10, 20);\nconsole.log(`Random number between 10 and 20: ${num}`);"), explanation: bytes_of("This example shows a reusable function to generate random numbers within a custom range.") });
        let g = bytes_of("In JavaScript, use `Math.random()` to generate a random number between 0 and 1. Multiply by a range and use `Math.floor()` to get integers. For example: `Math.floor(Math.random() * 100) + 1` generates a number between 1 and 100.");
        proof {
            assert(v@.map_values(|e: CodeExample| e@) =~= topic_content_spec(language, topic@).1);
        }
        (g, v)
    }
            else if control_hit {
        let mut v: Vec<CodeExample> = Vec::new();
        v.push(CodeExample { code: bytes_of("const number = 7;\nif (number > 5) {\n    console.log('The number is greater than 5');\n} else {\n    console.log('The number is 5 or less');\n}"), explanation: bytes_of("This example demonstrates a basic if-else statement that checks if a number is greater than 5.") });
        v.push(CodeExample { code: bytes_of("const age = 18;\nif (age >= 18) {\n    console.log('You are an adult');\n} else if (age >= 13) {\n    console.log('You are a teenager');\n} else {\n    console.log('You are a child');\n}"), explanation: bytes_of("This example shows an if-else-if chain with multiple conditions to categorize age groups.") });
        let g = bytes_of("Control flow in JavaScript uses `if`, `else if`, and `else` statements. Conditions can be any expression that evaluates to a truthy or falsy value. For example: `if (x > 5) { console.log('Greater'); } else { console.log('Less or equal'); }`");
        proof {
            assert(v@.map_values(|e: CodeExample| e@) =~= topic_content_spec(language, topic@).1);
        }
        (g, v)
    }
            else {
                let r: (Vec<u8>, Vec<CodeExample>) = (Vec::new(), Vec::new());
                proof {
                    assert(r.1@.map_values(|e: CodeExample| e@) =~= Seq::<CodeExampleV>::empty());
                }
                r
            }
        },
        Language::Cpp => {
            if random_hit {
        let mut v: Vec<CodeExample> = Vec::new();
        v.push(CodeExample { code: bytes_of("#include <iostream>\n#include <random>\n\nint main() {\n    std::random_device rd;\n    std::mt19937 gen(rd());\n    std::uniform_int_distribution<> dis(1, 100);\n    int random_num = dis(gen);\n    std::cout << \"Random number: \" << random_num << std::endl;\n    return 0;\n}"), explanation: bytes_of("This example shows how to generate a random number between 1 and 100 using C++'s random library.") });
        v.push(CodeExample { code: bytes_of("#include <iostream>\n#include <random>\n\nint main() {\n    std::random_device rd;\n    std::mt19937 gen(rd());\n    std::uniform_real_distribution<double> dis(0.0, 1.0);\n    double random_float = dis(gen);\n    std::cout << \"Random float: \" << random_float << std::endl;\n    return 0;\n}"), explanation: bytes_of("This example shows how to generate a random floating-point number between 0.0 and 1.0 using uniform_real_distribution.") });
        let g = bytes_of("In C++, include `<random>` and `<ctime>`. Use `std::mt19937` for the random number generator, seed it with `std::random_device{}()`, and use `std::uniform_int_distribution<>` to generate numbers in a range. For example: `std::uniform_int_distribution<> dis(1, 100);` then `dis(gen)` to get a random number.");
        proof {
            assert(v@.map_values(|e: CodeExample| e@) =~= topic_content_spec(language, topic@).1);
        }
        (g, v)
    }
            else if control_hit {
        let mut v: Vec<CodeExample> = Vec::new();
        v.push(CodeExample { code: bytes_of("#include <iostream>\n\nint main() {\n    int number = 7;\n    if (number > 5) {\n        std::cout << \"The number is greater than 5\" << std::endl;\n    } else {\n        std::cout << \"The number is 5 or less\" << std::endl;\n    }\n    return 0;\n}"), explanation: bytes_of("This example demonstrates a basic if-else statement that checks if a number is greater than 5.") });
        v.push(CodeExample { code: bytes_of("#include <iostream>\n\nint main() {\n    int temperature = 25;\n    if (temperature > 30) {\n        std::cout << \"It's hot\" << std::endl;\n    } else if (temperature > 20) {\n        std::cout << \"It's warm\" << std::endl;\n    } else {\n        std::cout << \"It's cool\" << std::endl;\n    }\n    return 0;\n}"), explanation: bytes_of("This example shows an if-else-if chain with multiple conditions to categorize temperature ranges.") });
        let g = bytes_of("Control flow in C++ uses `if`, `else if`, and `else` statements. Conditions must evaluate to a boolean value. For example: `if (x > 5) { std::cout << \"Greater\"; } else { std::cout << \"Less or equal\"; }`");
        proof {
            assert(v@.map_values(|e: CodeExample| e@) =~= topic_content_spec(language, topic@).1);
        }
        (g, v)
    }
            else {
                let r: (Vec<u8>, Vec<CodeExample>) = (Vec::new(), Vec::new());
                proof {
                    assert(r.1@.map_values(|e: CodeExample| e@) =~= Seq::<CodeExampleV>::empty());
                }
                r
            }
        },
    }
    }
}

/// The default concept sentence used when mining fails.
pub open spec fn default_concept(topic: Seq<u8>, language: Language) -> Seq<u8> {
    "An introduction to ".spec_bytes() + topic + " in ".spec_bytes() + language.display_bytes()
        + ".".spec_bytes()
}

/// The head of the first line of `s`, with a trailing carriage return
/// removed, as `str::lines` yields it.
pub open spec fn line_head(s: Seq<u8>) -> Seq<u8> {
    let l = match first_byte(s, 0, 10) {
        Some(k) => s.take(k),
        None => s,
    };
    if l.len() > 0 && l.last() == 13 {
        l.drop_last()
    } else {
        l
    }
}

/// Concept mining: after a case-insensitive `concept` heading, the text
/// following the next colon up to the end of the line, if its length is
/// within a sane bound; otherwise the default sentence.
pub open spec fn mined_concept(resp: Seq<u8>, topic: Seq<u8>, language: Language) -> Seq<u8> {
    match find_spec(lower_bytes(resp), "concept".spec_bytes(), 0) {
        None => default_concept(topic, language),
        Some(cs) => {
            let end = if resp.len() - cs > 300 {
                cs + 300
            } else {
                resp.len() as int
            };
            let section = resp.subrange(cs, end);
            match first_byte(section, 0, 58) {
                None => default_concept(topic, language),
                Some(colon) => {
                    let ct = line_head(trim_spec(section.skip(colon + 1)));
                    if ct.len() > 20 && ct.len() < 500 {
                        ct
                    } else {
                        default_concept(topic, language)
                    }
                },
            }
        },
    }
}

/// The lowercase `step N:` marker searched for.
pub open spec fn step_mark(i: int) -> Seq<u8> {
    "step ".spec_bytes() + dec_spec(i as nat) + ":".spec_bytes()
}

/// The `Step N: ` label a collected step is prefixed with.
pub open spec fn step_label(i: int) -> Seq<u8> {
    "Step ".spec_bytes() + dec_spec(i as nat) + ": ".spec_bytes()
}

/// Step mining within the bounded window after a `step` heading: markers
/// `step 1:` through `step 6:` are looked up in turn, and each hit whose
/// line is non-empty and short enough is collected verbatim.
pub open spec fn mined_steps_from(section: Seq<u8>, i: int) -> Seq<Seq<u8>>
    decreases 7 - i,
{
    if i > 6 {
        Seq::<Seq<u8>>::empty()
    } else {
        let rest = mined_steps_from(section, i + 1);
        match find_spec(lower_bytes(section), step_mark(i), 0) {
            None => rest,
            Some(pos) => {
                let st = section.skip(pos + step_mark(i).len());
                match first_byte(st, 0, 10) {
                    None => rest,
                    Some(nl) => {
                        let stp = trim_spec(st.take(nl));
                        if stp.len() > 0 && stp.len() < 200 {
                            seq![step_label(i) + stp] + rest
                        } else {
                            rest
                        }
                    },
                }
            },
        }
    }
}

/// The mined step list of a whole response.
pub open spec fn mined_steps(resp: Seq<u8>) -> Seq<Seq<u8>> {
    match find_spec(lower_bytes(resp), "step".spec_bytes(), 0) {
        None => Seq::<Seq<u8>>::empty(),
        Some(ss) => {
            let end = if resp.len() - ss > 500 {
                ss + 500
            } else {
                resp.len() as int
            };
            mined_steps_from(resp.subrange(ss, end), 1)
        },
    }
}

/// The three generic steps used when none are mined.
pub open spec fn default_steps(topic: Seq<u8>) -> Seq<Seq<u8>> {
    seq![
        "Step 1: Understand the concept of ".spec_bytes() + topic + ".".spec_bytes(),
        "Step 2: Review examples and syntax.".spec_bytes(),
        "Step 3: Practice with exercises.".spec_bytes(),
    ]
}

/// The explanation attached to a mined code block.
pub open spec fn mined_expl(topic: Seq<u8>, language: Language) -> Seq<u8> {
    "Example code demonstrating ".spec_bytes() + topic + " in ".spec_bytes()
        + language.display_bytes() + ".".spec_bytes()
}

/// Code-block mining: fenced blocks are scanned left to right within a
/// bounded window each; JSON fences (a `json` tag on the fence, or
/// content starting with a brace), empty blocks and over-long blocks are
/// skipped, and collection stops at two examples.
pub open spec fn mined_blocks(
    resp: Seq<u8>,
    cstart: int,
    count: int,
    topic: Seq<u8>,
    language: Language,
) -> Seq<CodeExampleV>
    decreases resp.len() + 3 - cstart,
{
    if cstart < 0 {
        Seq::<CodeExampleV>::empty()
    } else {
        match find_spec(resp, "```".spec_bytes(), cstart) {
            None => Seq::<CodeExampleV>::empty(),
            Some(ap) => {
                proof {
                    crate::scan::lemma_find_spec_ge(resp, "```".spec_bytes(), cstart);
                }
                let end = if resp.len() - ap > 1000 {
                    ap + 1000
                } else {
                    resp.len() as int
                };
                let block = resp.subrange(ap, end);
                match find_spec(block, "```".spec_bytes(), 3) {
                    None => mined_blocks(resp, ap + 3, count, topic, language),
                    Some(q) => {
                        let code = trim_spec(block.subrange(3, q));
                        if !crate::text::match_at(block, "json".spec_bytes(), 3) && !(code.len()
                            > 0 && code[0] == 123) && code.len() > 0 && code.len() < 500 {
                            let ex = CodeExampleV {
                                code,
                                explanation: mined_expl(topic, language),
                            };
                            if count + 1 >= 2 {
                                seq![ex]
                            } else {
                                seq![ex] + mined_blocks(resp, ap + 3, count + 1, topic, language)
                            }
                        } else {
                            mined_blocks(resp, ap + 3, count, topic, language)
                        }
                    },
                }
            },
        }
    }
}

/// Builds the default concept sentence.
pub fn default_concept_text(topic: &[u8], language: Language) -> (r: Vec<u8>)
    ensures
        r@ == default_concept(topic@, language),
{
    let mut out = bytes_of("An introduction to ");
    push_bytes(&mut out, topic);
    let mid = bytes_of(" in ");
    push_bytes(&mut out, mid.as_slice());
    let lang = language.display_name_bytes();
    push_bytes(&mut out, lang.as_slice());
    let dot = bytes_of(".");
    push_bytes(&mut out, dot.as_slice());
    proof {
        assert(out@ =~= default_concept(topic@, language));
    }
    out
}

/// Takes the head of the first line, as mining does.
pub fn line_head_of(s: &[u8]) -> (r: Vec<u8>)
    ensures
        r@ == line_head(s@),
{
    let l: Vec<u8> = match find_byte_from(s, 0, 10) {
        Some(k) => {
            let v = subvec(s, 0, k);
            proof {
                assert(s@.subrange(0, k as int) =~= s@.take(k as int));
            }
            v
        },
        None => bytes_of_slice(s),
    };
    if l.len() > 0 && l[l.len() - 1] == 13 {
        let mut l2 = l;
        l2.pop();
        proof {
            assert(l2@ =~= line_head(s@));
        }
        l2
    } else {
        l
    }
}

impl Generator {
    /// Mines the concept sentence out of a raw response.
    pub fn mine_concept(response: &[u8], topic: &[u8], language: Language) -> (r: Vec<u8>)
        ensures
            r@ == mined_concept(response@, topic@, language),
    {
        let n: usize = response.len();
        let low: Vec<u8> = to_lower(response);
        let pat = bytes_of("concept");
        let cs: usize = match find_pat(low.as_slice(), pat.as_slice(), 0) {
            Some(cs) => cs,
            None => {
                return default_concept_text(topic, language);
            },
        };
        let end: usize = if n - cs > 300 {
            cs + 300
        } else {
            n
        };
        let section: &[u8] = &response[cs..end];
        let colon: usize = match find_byte_from(section, 0, 58) {
            Some(c) => c,
            None => {
                return default_concept_text(topic, language);
            },
        };
        let sn: usize = section.len();
        let extracted: &[u8] = trim(&section[colon + 1..sn]);
        proof {
            assert(section@.subrange(colon + 1, sn as int) =~= section@.skip(colon + 1));
        }
        let ct: Vec<u8> = line_head_of(extracted);
        if ct.len() > 20 && ct.len() < 500 {
            ct
        } else {
            default_concept_text(topic, language)
        }
    }

    /// Mines the `Step N:` list out of a raw response.
    pub fn mine_steps(response: &[u8]) -> (r: Vec<Vec<u8>>)
        ensures
            texts_view(r@) == mined_steps(response@),
    {
        let n: usize = response.len();
        let low: Vec<u8> = to_lower(response);
        let pat = bytes_of("step");
        let ss: usize = match find_pat(low.as_slice(), pat.as_slice(), 0) {
            Some(ss) => ss,
            None => {
                let r: Vec<Vec<u8>> = Vec::new();
                proof {
                    assert(texts_view(r@) =~= Seq::<Seq<u8>>::empty());
                }
                return r;
            },
        };
        let end: usize = if n - ss > 500 {
            ss + 500
        } else {
            n
        };
        let section: &[u8] = &response[ss..end];
        let low_sec: Vec<u8> = to_lower(section);
        let mut out: Vec<Vec<u8>> = Vec::new();
        let mut i: u64 = 1;
        proof {
            assert(texts_view(out@) + mined_steps_from(section@, 1) =~= mined_steps_from(
                section@,
                1,
            ));
        }
        while i <= 6
            invariant
                1 <= i <= 7,
                section@ == response@.subrange(ss as int, end as int),
                low_sec@ == lower_bytes(section@),
                mined_steps_from(section@, 1) == texts_view(out@) + mined_steps_from(
                    section@,
                    i as int,
                ),
            decreases 7 - i,
        {
            let mut mark = bytes_of("step ");
            push_dec(&mut mark, i);
            let colon = bytes_of(":");
            push_bytes(&mut mark, colon.as_slice());
            proof {
                assert(mark@ =~= step_mark(i as int));
            }
            match find_pat(low_sec.as_slice(), mark.as_slice(), 0) {
                None => {},
                Some(pos) => {
                    let sn: usize = section.len();
                    let st: &[u8] = &section[pos + mark.len()..sn];
                    proof {
                        assert(st@ =~= section@.skip(pos + step_mark(i as int).len()));
                    }
                    match find_byte_from(st, 0, 10) {
                        None => {},
                        Some(nl) => {
                            let stp: &[u8] = trim(&st[0..nl]);
                            proof {
                                assert(st@.subrange(0, nl as int) =~= st@.take(nl as int));
                            }
                            if stp.len() > 0 && stp.len() < 200 {
                                let mut item = bytes_of("Step ");
                                push_dec(&mut item, i);
                                let sep = bytes_of(": ");
                                push_bytes(&mut item, sep.as_slice());
                                push_bytes(&mut item, stp);
                                proof {
                                    assert(item@ =~= step_label(i as int) + trim_spec(
                                        st@.take(nl as int),
                                    ));
                                }
                                let ghost prev = out@;
                                out.push(item);
                                proof {
                                    assert(texts_view(out@) =~= texts_view(prev).push(item@));
                                    assert(texts_view(prev) + (seq![item@] + mined_steps_from(
                                        section@,
                                        i + 1,
                                    )) =~= texts_view(out@) + mined_steps_from(section@, i + 1));
                                }
                            }
                        },
                    }
                },
            }
            i += 1;
        }
        proof {
            assert(texts_view(out@) + Seq::<Seq<u8>>::empty() =~= texts_view(out@));
        }
        out
    }

    /// Mines up to two fenced code blocks out of a raw response.
    pub fn mine_code_blocks(response: &[u8], topic: &[u8], language: Language) -> (r: Vec<
        CodeExample,
    >)
        ensures
            r@.map_values(|e: CodeExample| e@) == mined_blocks(response@, 0, 0, topic@, language),
            r@.len() <= 2,
    {
        let n: usize = response.len();
        let ticks = bytes_of("```");
        let mut out: Vec<CodeExample> = Vec::new();
        let mut cstart: usize = 0;
        let mut finished: bool = false;
        proof {
            assert(out@.map_values(|e: CodeExample| e@) + mined_blocks(
                response@,
                0,
                0,
                topic@,
                language,
            ) =~= mined_blocks(response@, 0, 0, topic@, language));
        }
        while !finished
            invariant
                cstart <= n,
                n == response@.len(),
                ticks@ == "```".spec_bytes(),
                out@.len() <= 2,
                !finished ==> out@.len() == 0 || out@.len() == 1,
                !finished ==> mined_blocks(response@, 0, 0, topic@, language) == out@.map_values(
                    |e: CodeExample| e@,
                ) + mined_blocks(response@, cstart as int, out@.len() as int, topic@, language),
                finished ==> mined_blocks(response@, 0, 0, topic@, language) == out@.map_values(
                    |e: CodeExample| e@,
                ),
            decreases n - cstart, (if finished { 0int } else { 1int }),
        {
            match find_pat(response, ticks.as_slice(), cstart) {
                None => {
                    proof {
                        assert(mined_blocks(response@, cstart as int, out@.len() as int, topic@,
                            language) == Seq::<CodeExampleV>::empty());
                        assert(out@.map_values(|e: CodeExample| e@) + Seq::<CodeExampleV>::empty()
                            =~= out@.map_values(|e: CodeExample| e@));
                    }
                    finished = true;
                },
                Some(ap) => {
                    let end: usize = if n - ap > 1000 {
                        ap + 1000
                    } else {
                        n
                    };
                    let block: &[u8] = &response[ap..end];
                    match find_pat(block, ticks.as_slice(), 3) {
                        None => {
                            if n >= 3 && ap <= n - 3 {
                                cstart = ap + 3;
                            } else {
                                proof {
                                    assert(find_spec(response@, "```".spec_bytes(), ap + 3)
                                        is None);
                                    assert(mined_blocks(response@, ap + 3, out@.len() as int,
                                        topic@, language) == Seq::<CodeExampleV>::empty());
                                    assert(out@.map_values(|e: CodeExample| e@) + Seq::<
                                        CodeExampleV,
                                    >::empty() =~= out@.map_values(|e: CodeExample| e@));
                                }
                                finished = true;
                            }
                        },
                        Some(q) => {
                            let code: &[u8] = trim(&block[3..q]);
                            let tag = bytes_of("json");
                            let json_tagged: bool = block.len() >= 3 && block.len() - 3
                                >= tag.len() && crate::text::match_here(block, tag.as_slice(), 3);
                            let keep: bool = !json_tagged && !(code.len() > 0 && code[0] == 123)
                                && code.len() > 0 && code.len() < 500;
                            if keep {
                                let ex = CodeExample {
                                    code: bytes_of_slice(code),
                                    explanation: mined_expl_text(topic, language),
                                };
                                let ghost prev = out@;
                                let ghost exv = ex@;
                                out.push(ex);
                                proof {
                                    assert(out@.map_values(|e: CodeExample| e@) =~= prev.map_values(
                                        |e: CodeExample| e@,
                                    ).push(exv));
                                }
                                if out.len() >= 2 {
                                    proof {
                                        assert(mined_blocks(response@, cstart as int,
                                            prev.len() as int, topic@, language) == seq![exv]);
                                        assert(prev.map_values(|e: CodeExample| e@) + seq![exv]
                                            =~= out@.map_values(|e: CodeExample| e@));
                                    }
                                    finished = true;
                                } else {
                                    proof {
                                        assert(prev.map_values(|e: CodeExample| e@) + (seq![exv]
                                            + mined_blocks(
                                            response@,
                                            ap + 3,
                                            out@.len() as int,
                                            topic@,
                                            language,
                                        )) =~= out@.map_values(|e: CodeExample| e@) + mined_blocks(
                                            response@,
                                            ap + 3,
                                            out@.len() as int,
                                            topic@,
                                            language,
                                        ));
                                    }
                                    if n >= 3 && ap <= n - 3 {
                                        cstart = ap + 3;
                                    } else {
                                        proof {
                                            assert(find_spec(
                                                response@,
                                                "```".spec_bytes(),
                                                ap + 3,
                                            ) is None);
                                            assert(mined_blocks(response@, ap + 3,
                                                out@.len() as int, topic@, language) == Seq::<
                                                CodeExampleV,
                                            >::empty());
                                            assert(out@.map_values(|e: CodeExample| e@) + Seq::<
                                                CodeExampleV,
                                            >::empty() =~= out@.map_values(|e: CodeExample| e@));
                                        }
                                        finished = true;
                                    }
                                }
                            } else {
                                if n >= 3 && ap <= n - 3 {
                                    cstart = ap + 3;
                                } else {
                                    proof {
                                        assert(find_spec(response@, "```".spec_bytes(), ap + 3)
                                            is None);
                                        assert(mined_blocks(response@, ap + 3, out@.len() as int,
                                            topic@, language) == Seq::<CodeExampleV>::empty());
                                        assert(out@.map_values(|e: CodeExample| e@) + Seq::<
                                            CodeExampleV,
                                        >::empty() =~= out@.map_values(|e: CodeExample| e@));
                                    }
                                    finished = true;
                                }
                            }
                        },
                    }
                },
            }
        }
        out
    }
}

/// Builds the explanation attached to a mined code block.
pub fn mined_expl_text(topic: &[u8], language: Language) -> (r: Vec<u8>)
    ensures
        r@ == mined_expl(topic@, language),
{
    let mut out = bytes_of("Example code demonstrating ");
    push_bytes(&mut out, topic);
    let mid = bytes_of(" in ");
    push_bytes(&mut out, mid.as_slice());
    let lang = language.display_name_bytes();
    push_bytes(&mut out, lang.as_slice());
    let dot = bytes_of(".");
    push_bytes(&mut out, dot.as_slice());
    proof {
        assert(out@ =~= mined_expl(topic@, language));
    }
    out
}

/// Text of the shape `pre` + topic + `mid` + language + `post`.
pub fn tl_text(pre: &str, topic: &[u8], mid: &str, language: Language, post: &str) -> (r: Vec<u8>)
    ensures
        r@ == pre.spec_bytes() + topic@ + mid.spec_bytes() + language.display_bytes()
            + post.spec_bytes(),
{
    let mut out = bytes_of(pre);
    push_bytes(&mut out, topic);
    let m = bytes_of(mid);
    push_bytes(&mut out, m.as_slice());
    let lang = language.display_name_bytes();
    push_bytes(&mut out, lang.as_slice());
    let p = bytes_of(post);
    push_bytes(&mut out, p.as_slice());
    proof {
        assert(out@ =~= pre.spec_bytes() + topic@ + mid.spec_bytes() + language.display_bytes()
            + post.spec_bytes());
    }
    out
}

/// Text of the shape `pre` + language + `mid` + topic + `post`.
pub fn lt_text(pre: &str, language: Language, mid: &str, topic: &[u8], post: &str) -> (r: Vec<u8>)
    ensures
        r@ == pre.spec_bytes() + language.display_bytes() + mid.spec_bytes() + topic@
            + post.spec_bytes(),
{
    let mut out = bytes_of(pre);
    let lang = language.display_name_bytes();
    push_bytes(&mut out, lang.as_slice());
    let m = bytes_of(mid);
    push_bytes(&mut out, m.as_slice());
    push_bytes(&mut out, topic);
    let p = bytes_of(post);
    push_bytes(&mut out, p.as_slice());
    proof {
        assert(out@ =~= pre.spec_bytes() + language.display_bytes() + mid.spec_bytes() + topic@
            + p@);
    }
    out
}

/// Text of the shape `pre` + topic + `post`.
pub fn t_text(pre: &str, topic: &[u8], post: &str) -> (r: Vec<u8>)
    ensures
        r@ == pre.spec_bytes() + topic@ + post.spec_bytes(),
{
    let mut out = bytes_of(pre);
    push_bytes(&mut out, topic);
    let p = bytes_of(post);
    push_bytes(&mut out, p.as_slice());
    proof {
        assert(out@ =~= pre.spec_bytes() + topic@ + p@);
    }
    out
}

/// Text of the shape `pre` + topic.
pub fn t_prefix(pre: &str, topic: &[u8]) -> (r: Vec<u8>)
    ensures
        r@ == pre.spec_bytes() + topic@,
{
    let mut out = bytes_of(pre);
    push_bytes(&mut out, topic);
    out
}

/// Text of the shape `pre` + topic + `mid` + language.
pub fn tl_prefix(pre: &str, topic: &[u8], mid: &str, language: Language) -> (r: Vec<u8>)
    ensures
        r@ == pre.spec_bytes() + topic@ + mid.spec_bytes() + language.display_bytes(),
{
    let mut out = bytes_of(pre);
    push_bytes(&mut out, topic);
    let m = bytes_of(mid);
    push_bytes(&mut out, m.as_slice());
    let lang = language.display_name_bytes();
    push_bytes(&mut out, lang.as_slice());
    proof {
        assert(out@ =~= pre.spec_bytes() + topic@ + mid.spec_bytes() + language.display_bytes());
    }
    out
}

/// The description, hints and example output of the fallback exercise
/// that full synthesis builds: a variable-declaration table per language,
/// else a generic template that mentions the examples when there are any.
pub open spec fn fallback_params(language: Language, topic: Seq<u8>, has_ex: bool) -> (
    Seq<u8>,
    Seq<Seq<u8>>,
    Seq<u8>,
) {
    if is_variable_topic(lower_bytes(topic)) {
        match language {
            Language::Rust => (
                "Declare a variable in Rust. Use `let` to create an immutable variable with a value, then print it using `println!()`. For example, declare a variable `name` with your name and print it.".spec_bytes(),
                seq![
                    "Use `let variable_name = value;` to declare a variable".spec_bytes(),
                    "Use `println!(\"text {{}}\", variable_name);` to print the variable".spec_bytes(),
                    "Remember: variables without `mut` cannot be changed".spec_bytes(),
                ],
                "Your name".spec_bytes(),
            ),
            Language::JavaScript => (
                "Declare a variable in JavaScript using `let`, `const`, or `var`. Assign it a value and print it using `console.log()`.".spec_bytes(),
                seq![
                    "Use `let variableName = value;` to declare a variable".spec_bytes(),
                    "Use `console.log(variableName);` to print it".spec_bytes(),
                ],
                "The value of your variable".spec_bytes(),
            ),
            Language::Cpp => (
                "Declare a variable in C++. Use the appropriate type (int, string, etc.), assign it a value, and print it using `cout`.".spec_bytes(),
                seq![
                    "Use `type variable_name = value;` to declare a variable".spec_bytes(),
                    "Use `cout << variable_name << endl;` to print it".spec_bytes(),
                ],
                "The value of your variable".spec_bytes(),
            ),
        }
    } else {
        let desc = if has_ex {
            "Write a simple program in ".spec_bytes() + language.display_bytes()
                + " that demonstrates ".spec_bytes() + topic
                + ". Use the examples above as a reference.".spec_bytes()
        } else {
            "Write a simple program in ".spec_bytes() + language.display_bytes()
                + " that demonstrates ".spec_bytes() + topic + ".".spec_bytes()
        };
        let base_hints = seq![
            "Start with a basic ".spec_bytes() + language.display_bytes() + " program".spec_bytes(),
            "Make sure your code compiles and runs".spec_bytes(),
            "Focus on demonstrating ".spec_bytes() + topic,
        ];
        let hints = if has_ex {
            seq!["Review the code examples above".spec_bytes()] + base_hints
        } else {
            base_hints
        };
        (desc, hints, "Output demonstrating ".spec_bytes() + topic)
    }
}

/// The description, hints and example output of the standalone fallback
/// exercise: variable and random-number tables per language, else a
/// generic template.
pub open spec fn fallback_ex_params(language: Language, topic: Seq<u8>) -> (
    Seq<u8>,
    Seq<Seq<u8>>,
    Seq<u8>,
) {
    if is_variable_topic(lower_bytes(topic)) {
        match language {
            Language::Rust => (
                "Declare a variable in Rust. Use `let` to create an immutable variable with a value, then print it using `println!()`. For example, declare a variable `name` with your name and print it.".spec_bytes(),
                seq![
                    "Use `let variable_name = value;` to declare a variable".spec_bytes(),
                    "Use `println!(\"text {{}}\", variable_name);` to print the variable".spec_bytes(),
                ],
                "Your name".spec_bytes(),
            ),
            Language::JavaScript => (
                "Declare a variable in JavaScript using `let`, `const`, or `var`. Assign it a value and print it using `console.log()`.".spec_bytes(),
                seq![
                    "Use `let variableName = value;` to declare a variable".spec_bytes(),
                    "Use `console.log(variableName);` to print it".spec_bytes(),
                ],
                "The value of your variable".spec_bytes(),
            ),
            Language::Cpp => (
                "Declare a variable in C++ with a type and value, then print it using `cout`.".spec_bytes(),
                seq![
                    "Use `type variableName = value;` to declare a variable".spec_bytes(),
                    "Use `std::cout << variableName << std::endl;` to print it".spec_bytes(),
                ],
                "The value of your variable".spec_bytes(),
            ),
        }
    } else if is_random_topic(lower_bytes(topic)) {
        match language {
            Language::Rust => (
                "Generate a random number in Rust using the `rand` crate. Use `rand::Rng` and generate a random number between 1 and 100, then print it.".spec_bytes(),
                seq![
                    "Use `use rand::Rng;` to import the Rng trait".spec_bytes(),
                    "Use `let mut rng = rand::thread_rng();` to create a generator".spec_bytes(),
                    "Use `rng.gen_range(1..=100)` to generate a number".spec_bytes(),
                ],
                "Random number between 1 and 100: 42".spec_bytes(),
            ),
            Language::JavaScript => (
                "Generate a random number in JavaScript using `Math.random()`. Generate a number between 1 and 100 and print it.".spec_bytes(),
                seq![
                    "Use `Math.random()` to get a number between 0 and 1".spec_bytes(),
                    "Multiply by 100 and use `Math.floor()` to get an integer".spec_bytes(),
                ],
                "Random number between 1 and 100: 42".spec_bytes(),
            ),
            Language::Cpp => (
                "Generate a random number in C++ using `<random>`. Generate a number between 1 and 100 and print it.".spec_bytes(),
                seq![
                    "Include `<random>` header".spec_bytes(),
                    "Use `std::mt19937` and `std::uniform_int_distribution`".spec_bytes(),
                ],
                "Random number between 1 and 100: 42".spec_bytes(),
            ),
        }
    } else {
        (
            "Write code in ".spec_bytes() + language.display_bytes()
                + " to demonstrate your understanding of ".spec_bytes() + topic
                + ". Refer to the explanations and examples above.".spec_bytes(),
            seq![
                "Review the code examples above".spec_bytes(),
                "Start with a simple implementation".spec_bytes(),
            ],
            "Output demonstrating ".spec_bytes() + topic,
        )
    }
}

/// The standalone fallback exercise.
pub open spec fn spec_fallback_exercise(language: Language, topic: Seq<u8>) -> ExerciseV {
    let params = fallback_ex_params(language, topic);
    ExerciseV {
        title: "Practice: ".spec_bytes() + topic,
        description: params.0,
        hints: params.1,
        example_input: Some(Seq::<u8>::empty()),
        example_output: Some(params.2),
        test_cases: spec_gen_tests(params.0, params.2),
    }
}

/// A second example derived from the first when only one was found.
pub open spec fn variation_example(first: CodeExampleV, topic: Seq<u8>, language: Language) -> CodeExampleV {
    CodeExampleV {
        code: "// Variation of the example above\n".spec_bytes() + first.code,
        explanation: "Another example demonstrating ".spec_bytes() + topic + " in ".spec_bytes()
            + language.display_bytes() + ".".spec_bytes(),
    }
}

/// The two placeholder examples fabricated when none were found.
pub open spec fn basic_example_one(topic: Seq<u8>, language: Language) -> CodeExampleV {
    CodeExampleV {
        code: "// Basic example for ".spec_bytes() + topic + " in ".spec_bytes()
            + language.display_bytes(),
        explanation: mined_expl(topic, language),
    }
}

pub open spec fn basic_example_two(topic: Seq<u8>, language: Language) -> CodeExampleV {
    CodeExampleV {
        code: "// Another example for ".spec_bytes() + topic + " in ".spec_bytes()
            + language.display_bytes(),
        explanation: "Another example showing ".spec_bytes() + topic + " in ".spec_bytes()
            + language.display_bytes() + ".".spec_bytes(),
    }
}

/// Padding to the two-example floor: one variation of a lone example, or
/// two placeholders when none exist.
pub open spec fn padded_examples(base: Seq<CodeExampleV>, topic: Seq<u8>, language: Language) -> Seq<CodeExampleV> {
    if base.len() >= 2 {
        base
    } else if base.len() == 1 {
        base.push(variation_example(base[0], topic, language))
    } else {
        seq![basic_example_one(topic, language), basic_example_two(topic, language)]
    }
}

/// The whole synthesized content object built from a raw response: mined
/// concept, mined or default steps, mined or curated or placeholder
/// examples, curated or generic syntax guide, and one fallback exercise.
pub open spec fn spec_fallback_content(
    language: Language,
    topic: Seq<u8>,
    response: Seq<u8>,
) -> GeneratedContentV {
    let concept = mined_concept(response, topic, language);
    let steps0 = mined_steps(response);
    let steps = if steps0.len() == 0 {
        default_steps(topic)
    } else {
        steps0
    };
    let mined = mined_blocks(response, 0, 0, topic, language);
    let tc = topic_content_spec(language, topic);
    let base = if mined.len() == 0 && tc.1.len() > 0 {
        tc.1
    } else {
        mined
    };
    let examples = padded_examples(base, topic, language);
    let guide = if tc.0.len() > 0 {
        tc.0
    } else if examples.len() > 0 {
        "Basic syntax for ".spec_bytes() + topic + " in ".spec_bytes() + language.display_bytes()
            + ". Refer to the code examples above for specific syntax patterns.".spec_bytes()
    } else {
        "Basic syntax for ".spec_bytes() + topic + " in ".spec_bytes() + language.display_bytes()
            + ".".spec_bytes()
    };
    let has_ex = examples.len() > 0;
    let params = fallback_params(language, topic, has_ex);
    GeneratedContentV {
        concept,
        step_by_step: steps,
        code_examples: examples,
        syntax_guide: guide,
        common_patterns: Seq::<Seq<u8>>::empty(),
        exercises: seq![
            ExerciseV {
                title: "Practice: ".spec_bytes() + topic,
                description: params.0,
                hints: params.1,
                example_input: Some(Seq::<u8>::empty()),
                example_output: Some(params.2),
                test_cases: spec_gen_tests(params.0, params.2),
            },
        ],
    }
}

impl Generator {

    /// Pads a mined or curated example list up to the two-example floor.
    fn pad_examples(base: Vec<CodeExample>, topic: &[u8], language: Language) -> (r: Vec<
        CodeExample,
    >)
        ensures
            r@.map_values(|e: CodeExample| e@) == padded_examples(
                base@.map_values(|e: CodeExample| e@),
                topic@,
                language,
            ),
    {
        let mut code_examples = base;
        if code_examples.len() == 1 {
            let mut vcode = bytes_of("// Variation of the example above\n");
            push_bytes(&mut vcode, code_examples[0].code.as_slice());
            let vex = CodeExample {
                code: vcode,
                explanation: tl_text("Another example demonstrating ", topic, " in ", language, "."),
            };
            let ghost prev = code_examples@;
            code_examples.push(vex);
            proof {
                assert(code_examples@.map_values(|e: CodeExample| e@) =~= prev.map_values(
                    |e: CodeExample| e@,
                ).push(vex@));
                assert(vex@ == variation_example(
                    prev.map_values(|e: CodeExample| e@)[0],
                    topic@,
                    language,
                ));
            }
        } else if code_examples.len() == 0 {
            let b1 = CodeExample {
                code: tl_prefix("// Basic example for ", topic, " in ", language),
                explanation: mined_expl_text(topic, language),
            };
            let b2 = CodeExample {
                code: tl_prefix("// Another example for ", topic, " in ", language),
                explanation: tl_text("Another example showing ", topic, " in ", language, "."),
            };
            code_examples.push(b1);
            code_examples.push(b2);
            proof {
                assert(code_examples@.map_values(|e: CodeExample| e@) =~= seq![
                    basic_example_one(topic@, language),
                    basic_example_two(topic@, language),
                ]);
            }
        }
        code_examples
    }

    /// Builds the description, hints and example output of the synthesized
    /// fallback exercise.
    fn fallback_params_exec(language: Language, topic: &[u8], has_ex: bool) -> (r: (
        Vec<u8>,
        Vec<Vec<u8>>,
        Vec<u8>,
    ))
        ensures
            ({
                let sp = fallback_params(language, topic@, has_ex);
                r.0@ == sp.0 && texts_view(r.1@) == sp.1 && r.2@ == sp.2
            }),
    {
        let low = to_lower(topic);
        let p_var = bytes_of("variable");
        let p_mut = bytes_of("mutability");
        let variable_hit: bool = contains_sub(low.as_slice(), p_var.as_slice()) || contains_sub(
            low.as_slice(),
            p_mut.as_slice(),
        );
        let mut hints: Vec<Vec<u8>> = Vec::new();
        let description: Vec<u8>;
        let example_output: Vec<u8>;
        if variable_hit {
            match language {
                Language::Rust => {
                    description = bytes_of(
                        "Declare a variable in Rust. Use `let` to create an immutable variable with a value, then print it using `println!()`. For example, declare a variable `name` with your name and print it.",
                    );
                    hints.push(bytes_of("Use `let variable_name = value;` to declare a variable"));
                    hints.push(
                        bytes_of(
                            "Use `println!(\"text {{}}\", variable_name);` to print the variable",
                        ),
                    );
                    hints.push(bytes_of("Remember: variables without `mut` cannot be changed"));
                    example_output = bytes_of("Your name");
                },
                Language::JavaScript => {
                    description = bytes_of(
                        "Declare a variable in JavaScript using `let`, `const`, or `var`. Assign it a value and print it using `console.log()`.",
                    );
                    hints.push(bytes_of("Use `let variableName = value;` to declare a variable"));
                    hints.push(bytes_of("Use `console.log(variableName);` to print it"));
                    example_output = bytes_of("The value of your variable");
                },
                Language::Cpp => {
                    description = bytes_of(
                        "Declare a variable in C++. Use the appropriate type (int, string, etc.), assign it a value, and print it using `cout`.",
                    );
                    hints.push(bytes_of("Use `type variable_name = value;` to declare a variable"));
                    hints.push(bytes_of("Use `cout << variable_name << endl;` to print it"));
                    example_output = bytes_of("The value of your variable");
                },
            }
            proof {
                assert(texts_view(hints@) =~= fallback_params(language, topic@, has_ex).1);
            }
        } else {
            description = if has_ex {
                lt_text(
                    "Write a simple program in ",
                    language,
                    " that demonstrates ",
                    topic,
                    ". Use the examples above as a reference.",
                )
            } else {
                lt_text("Write a simple program in ", language, " that demonstrates ", topic, ".")
            };
            if has_ex {
                hints.push(bytes_of("Review the code examples above"));
            }
            let mut h1 = bytes_of("Start with a basic ");
            let lang = language.display_name_bytes();
            push_bytes(&mut h1, lang.as_slice());
            let prog = bytes_of(" program");
            push_bytes(&mut h1, prog.as_slice());
            hints.push(h1);
            hints.push(bytes_of("Make sure your code compiles and runs"));
            hints.push(t_prefix("Focus on demonstrating ", topic));
            proof {
                assert(texts_view(hints@) =~= fallback_params(language, topic@, has_ex).1);
            }
            example_output = t_prefix("Output demonstrating ", topic);
        }
        (description, hints, example_output)
    }

    /// Builds the standalone fallback exercise for a topic.
    pub fn create_fallback_exercise_with_tests(language: Language, topic: &[u8]) -> (r: Exercise)
        ensures
            r@ == spec_fallback_exercise(language, topic@),
    {
        let low = to_lower(topic);
        let p_var = bytes_of("variable");
        let p_mut = bytes_of("mutability");
        let p_rand = bytes_of("random");
        let variable_hit: bool = contains_sub(low.as_slice(), p_var.as_slice()) || contains_sub(
            low.as_slice(),
            p_mut.as_slice(),
        );
        let random_hit: bool = contains_sub(low.as_slice(), p_rand.as_slice());
        let mut hints: Vec<Vec<u8>> = Vec::new();
        let description: Vec<u8>;
        let example_output: Vec<u8>;
        if variable_hit {
            match language {
                Language::Rust => {
                    description = bytes_of(
                        "Declare a variable in Rust. Use `let` to create an immutable variable with a value, then print it using `println!()`. For example, declare a variable `name` with your name and print it.",
                    );
                    hints.push(bytes_of("Use `let variable_name = value;` to declare a variable"));
                    hints.push(
                        bytes_of(
                            "Use `println!(\"text {{}}\", variable_name);` to print the variable",
                        ),
                    );
                    example_output = bytes_of("Your name");
                },
                Language::JavaScript => {
                    description = bytes_of(
                        "Declare a variable in JavaScript using `let`, `const`, or `var`. Assign it a value and print it using `console.log()`.",
                    );
                    hints.push(bytes_of("Use `let variableName = value;` to declare a variable"));
                    hints.push(bytes_of("Use `console.log(variableName);` to print it"));
                    example_output = bytes_of("The value of your variable");
                },
                Language::Cpp => {
                    description = bytes_of(
                        "Declare a variable in C++ with a type and value, then print it using `cout`.",
                    );
                    hints.push(bytes_of("Use `type variableName = value;` to declare a variable"));
                    hints.push(bytes_of("Use `std::cout << variableName << std::endl;` to print it"));
                    example_output = bytes_of("The value of your variable");
                },
            }
        } else if random_hit {
            match language {
                Language::Rust => {
                    description = bytes_of(
                        "Generate a random number in Rust using the `rand` crate. Use `rand::Rng` and generate a random number between 1 and 100, then print it.",
                    );
                    hints.push(bytes_of("Use `use rand::Rng;` to import the Rng trait"));
                    hints.push(bytes_of("Use `let mut rng = rand::thread_rng();` to create a generator"));
                    hints.push(bytes_of("Use `rng.gen_range(1..=100)` to generate a number"));
                    example_output = bytes_of("Random number between 1 and 100: 42");
                },
                Language::JavaScript => {
                    description = bytes_of(
                        "Generate a random number in JavaScript using `Math.random()`. Generate a number between 1 and 100 and print it.",
                    );
                    hints.push(bytes_of("Use `Math.random()` to get a number between 0 and 1"));
                    hints.push(bytes_of("Multiply by 100 and use `Math.floor()` to get an integer"));
                    example_output = bytes_of("Random number between 1 and 100: 42");
                },
                Language::Cpp => {
                    description = bytes_of(
                        "Generate a random number in C++ using `<random>`. Generate a number between 1 and 100 and print it.",
                    );
                    hints.push(bytes_of("Include `<random>` header"));
                    hints.push(bytes_of("Use `std::mt19937` and `std::uniform_int_distribution`"));
                    example_output = bytes_of("Random number between 1 and 100: 42");
                },
            }
        } else {
            description = lt_text(
                "Write code in ",
                language,
                " to demonstrate your understanding of ",
                topic,
                ". Refer to the explanations and examples above.",
            );
            hints.push(bytes_of("Review the code examples above"));
            hints.push(bytes_of("Start with a simple implementation"));
            example_output = t_prefix("Output demonstrating ", topic);
        }
        let test_cases = Self::generate_test_cases_for_exercise(
            language,
            description.as_slice(),
            example_output.as_slice(),
        );
        let mut title = bytes_of("Practice: ");
        push_bytes(&mut title, topic);
        let ex = Exercise {
            title,
            description,
            hints,
            example_input: Some(Vec::new()),
            example_output: Some(example_output),
            test_cases,
        };
        proof {
            let sp = spec_fallback_exercise(language, topic@);
            assert(ex@.title =~= sp.title);
            assert(ex@.hints =~= sp.hints);
            assert(ex@ == sp);
        }
        ex
    }

    /// Synthesizes a whole content object from an unrecoverable response.
        pub fn create_fallback_from_response(
        language: Language,
        topic: &[u8],
        response_content: &[u8],
        _json_str: &[u8],
    ) -> (r: GeneratedContent)
        ensures
            r@ == spec_fallback_content(language, topic@, response_content@),
    {
        let concept: Vec<u8> = Self::mine_concept(response_content, topic, language);
        let mined_steps_list: Vec<Vec<u8>> = Self::mine_steps(response_content);
        let step_by_step: Vec<Vec<u8>> = if mined_steps_list.len() == 0 {
            let mut d: Vec<Vec<u8>> = Vec::new();
            d.push(t_text("Step 1: Understand the concept of ", topic, "."));
            d.push(bytes_of("Step 2: Review examples and syntax."));
            d.push(bytes_of("Step 3: Practice with exercises."));
            proof {
                assert(texts_view(d@) =~= default_steps(topic@));
            }
            d
        } else {
            mined_steps_list
        };
        let mined: Vec<CodeExample> = Self::mine_code_blocks(response_content, topic, language);
        let tc: (Vec<u8>, Vec<CodeExample>) = Self::generate_topic_specific_content(
            language,
            topic,
        );
        let tc_guide_nonempty: bool = tc.0.len() > 0;
        let base: Vec<CodeExample> = if mined.len() == 0 && tc.1.len() > 0 {
            tc.1
        } else {
            mined
        };
        let code_examples: Vec<CodeExample> = Self::pad_examples(base, topic, language);
        let syntax_guide: Vec<u8> = if tc_guide_nonempty {
            tc.0
        } else if code_examples.len() > 0 {
            tl_text(
                "Basic syntax for ",
                topic,
                " in ",
                language,
                ". Refer to the code examples above for specific syntax patterns.",
            )
        } else {
            tl_text("Basic syntax for ", topic, " in ", language, ".")
        };
        let has_ex: bool = code_examples.len() > 0;
        let params = Self::fallback_params_exec(language, topic, has_ex);
        let test_cases = Self::generate_test_cases_for_exercise(
            language,
            params.0.as_slice(),
            params.2.as_slice(),
        );
        let mut title = bytes_of("Practice: ");
        push_bytes(&mut title, topic);
        let fallback_exercise = Exercise {
            title,
            description: params.0,
            hints: params.1,
            example_input: Some(Vec::new()),
            example_output: Some(params.2),
            test_cases,
        };
        let mut exercises: Vec<Exercise> = Vec::new();
        exercises.push(fallback_exercise);
        let c = GeneratedContent {
            concept,
            step_by_step,
            code_examples,
            syntax_guide,
            common_patterns: Vec::new(),
            exercises,
        };
        proof {
            let sp = spec_fallback_content(language, topic@, response_content@);
            assert(texts_view(Seq::<Vec<u8>>::empty()) =~= Seq::<Seq<u8>>::empty());
            assert(c@.exercises[0].title =~= sp.exercises[0].title);
            assert(c@.exercises[0] == sp.exercises[0]);
            assert(c@.exercises =~= sp.exercises);
            assert(c@ == sp);
        }
        c
    }
}

/// Whether a backend response mentions an accelerator: any of the known
/// device markers occurs in the lowercased text.
pub open spec fn mentions_gpu(s: Seq<u8>) -> bool {
    ||| has_sub(lower_bytes(s), "gpu".spec_bytes())
    ||| has_sub(lower_bytes(s), "cuda".spec_bytes())
    ||| has_sub(lower_bytes(s), "metal".spec_bytes())
    ||| has_sub(lower_bytes(s), "vulkan".spec_bytes())
    ||| has_sub(lower_bytes(s), "rocm".spec_bytes())
    ||| has_sub(lower_bytes(s), "rocm0".spec_bytes())
}

impl Generator {
    /// Decides whether a backend response indicates that an accelerator
    /// was used.
    pub fn response_mentions_gpu(response: &[u8]) -> (r: bool)
        ensures
            r == mentions_gpu(response@),
    {
        let low = to_lower(response);
        let p1 = bytes_of("gpu");
        let p2 = bytes_of("cuda");
        let p3 = bytes_of("metal");
        let p4 = bytes_of("vulkan");
        let p5 = bytes_of("rocm");
        let p6 = bytes_of("rocm0");
        contains_sub(low.as_slice(), p1.as_slice()) || contains_sub(low.as_slice(), p2.as_slice())
            || contains_sub(low.as_slice(), p3.as_slice()) || contains_sub(
            low.as_slice(),
            p4.as_slice(),
        ) || contains_sub(low.as_slice(), p5.as_slice()) || contains_sub(
            low.as_slice(),
            p6.as_slice(),
        )
    }
}

} // verus!
