//! The prompt handed to the model backend, assembled from the fixed
//! teaching-style template and the lesson parameters.

use vstd::prelude::*;
use crate::config::{Difficulty, Language, LessonType};
use crate::text::{bytes_of, dec_spec, push_bytes, push_dec};
use vstd::string::StringSliceAdditionalSpecFns;

verus! {

pub struct Ruleset;

/// The full prompt text for a lesson request.
pub open spec fn prompt_spec(
    language: Language,
    difficulty: Difficulty,
    lesson_type: LessonType,
    topic: Seq<u8>,
) -> Seq<u8> {
    "You are a coding education assistant similar to Codecademy and Coddy. Generate an educational lesson following these rules:\n\nLANGUAGE: ".spec_bytes()
        + language.display_bytes()
        + "\nDIFFICULTY: ".spec_bytes()
        + difficulty.display_bytes()
        + "\nLESSON TYPE: ".spec_bytes()
        + lesson_type.display_bytes()
        + "\nTOPIC: ".spec_bytes()
        + topic
        + "\n\nTEACHING STYLE REQUIREMENTS:\n1. **Concept Introduction**: Provide a clear, beginner-friendly explanation of what the concept is (5-7 sentences). Include:\n   - What the concept is and why it exists\n   - How it differs from other languages (if applicable)\n   - Why this design choice was made (the reasoning behind it)\n   - Common misconceptions or differences from languages like JavaScript, Python, C++, etc.\n   - Real-world context: when and why you'd use this feature\n2. **Step-by-Step Explanation**: Break down how the concept works in simple steps (4-6 steps). Each step should explain:\n   - What happens at that step\n   - Why it works that way\n   - How it differs from similar concepts in other languages (if applicable)\n3. **Code Examples**: **CRITICAL: You MUST provide at least 2 code examples** (2-3 total). Each example should have detailed line-by-line explanations. Include:\n   - What each line does\n   - Why it's written that way\n   - What would happen if you tried to do it differently\n   - Comparisons to how you'd do it in other languages (if relevant)\n4. **Syntax Guide**: Explain the syntax clearly, showing how to write it with examples. Include:\n   - The exact syntax rules\n   - What each part means\n   - Common variations\n   - What happens if you omit parts (e.g., what if you forget `mut`?)\n5. **Common Patterns**: Show 2-3 common use cases or patterns for this concept. Explain:\n   - When to use each pattern\n   - Why that pattern is preferred\n   - What problems it solves\n6. **Guided Exercise**: Create ".spec_bytes()
        + dec_spec(lesson_type.spec_exercise_count())
        + " exercise(s) with:\n   - Clear step-by-step instructions that explain WHAT to do and HOW to do it\n   - **CRITICAL FOR BEGINNER EXERCISES**: For basic concepts like variable declaration, use hardcoded values. DO NOT require input reading unless the topic explicitly teaches input/output. Keep it simple for beginners.\n   - **CRITICAL**: DO NOT create exercises that require compilation errors to produce expected output. If you want to teach about errors, explain them in the concept/step-by-step sections, but exercises should produce valid, compilable code that runs successfully.\n   - **CRITICAL**: If the exercise requires reading input, EXPLICITLY state this in the description and explain HOW to read input for the language with code examples\n   - **CRITICAL**: If the exercise requires output, EXPLICITLY state this in the description\n   - Detailed hints on how to approach it (be specific, not vague)\n   - **Example input/output**: ALWAYS provide these fields:\n     * \"example_input\": Show what input the program should read (use empty string \"\" if no input needed - this is preferred for beginner exercises)\n     * \"example_output\": Show what the program should output/print (ALWAYS include this - even if just showing variable values or function results)\n     * For variable declaration exercises: Use hardcoded values and show what the code should output (e.g., print the variable value). DO NOT require input reading.\n     * For exercises requiring input: clearly state \"Your program should read input from stdin\" and show example input values with code examples\n   - **CRITICAL: Test cases are REQUIRED** - You MUST include at least 2-3 test cases for EVERY exercise:\n     * Test cases MUST align with the exercise description and hints\n     * Test cases MUST validate what the exercise asks the student to do\n     * If the exercise asks to print something, test cases should check that exact output\n     * If the exercise asks to calculate something, test cases should verify the calculation\n     * **IMPORTANT**: If test cases have different outputs but no input, this is an error. Either:\n       - Use the same expected output for all test cases (for exercises without input), OR\n       - Provide input values for each test case (for exercises with input)\n   - **IMPORTANT: You MUST include at least ".spec_bytes()
        + dec_spec(lesson_type.spec_exercise_count())
        + " exercise(s) in the \"exercises\" array, and EACH exercise MUST have test_cases with at least 2-3 test cases**\n\nEDUCATIONAL FOCUS:\n- Teach HOW to write the code, not just what to write\n- Explain WHY certain syntax is used and the reasoning behind design choices\n- Compare and contrast with other languages (JavaScript, Python, C++, etc.) to help learners understand differences\n- Show common mistakes and how to avoid them, including what happens if you try to do things the \"other language way\"\n- Make it practical and applicable to real coding\n- For ".spec_bytes()
        + lesson_type.display_bytes()
        + " lessons, focus on ".spec_bytes()
        + dec_spec(lesson_type.spec_concept_count())
        + " core concept(s)\n- Match the complexity to ".spec_bytes()
        + difficulty.display_bytes()
        + " difficulty level\n- **SPECIAL FOR RUST**: When explaining concepts like immutability, ownership, borrowing, etc.:\n  * Explain how Rust differs from other languages (e.g., in JavaScript/Python, variables are mutable by default)\n  * Explain WHY Rust made these design choices (memory safety, preventing bugs, etc.)\n  * Show what happens if you try to change an immutable variable (the compiler error)\n  * Compare to how you'd do it in other languages\n  * Explain the benefits and trade-offs\n- **SPECIAL FOR COMPILATION TOPICS**: \n  * Explain the compilation/build process step-by-step\n  * Show actual command-line examples (e.g., \"g++ -o program program.cpp\")\n  * Explain what each flag/option does\n  * Show how to run the compiled program\n  * For C++: Cover both direct g++ compilation and CMake basics\n  * For Rust: Cover both rustc direct compilation and Cargo project management\n  * For JavaScript: Explain Node.js execution, no compilation needed but show how to run scripts\n\nOUTPUT FORMAT (JSON):\n{\n  \"concept\": \"Clear, detailed explanation (5-7 sentences) of what the concept is, why it exists, how it differs from other languages, and the reasoning behind the design choice. Include comparisons to JavaScript, Python, C++, etc. when relevant. For Rust immutability, explain that `let` without `mut` creates an immutable variable that CANNOT be changed after assignment (unlike JavaScript/Python where variables are mutable by default), and explain WHY Rust made this design choice (memory safety, preventing bugs, etc.).\",\n  \"step_by_step\": [\n    \"Step 1: Detailed explanation including what happens and why\",\n    \"Step 2: Detailed explanation including what happens and why\",\n    \"Step 3: Detailed explanation including what happens and why\"\n  ],\n  \"code_examples\": [\n    {\n      \"code\": \"example code here\",\n      \"explanation\": \"Detailed line-by-line explanation of what this code does, why it's written that way, what would happen if done differently, and comparisons to other languages when relevant. For Rust, show what compiler error you get if you try to change an immutable variable.\"\n    },\n    {\n      \"code\": \"another example code here\",\n      \"explanation\": \"Detailed explanation of this second example, showing a different approach or variation.\"\n    }\n  ],\n   **CRITICAL: The \"code_examples\" array MUST contain at least 2 examples. Do not provide just 1 example.**\n  \"syntax_guide\": \"Detailed explanation of the syntax with examples. Include what each part means, what happens if you omit parts, and comparisons to other languages. For Rust immutability, explain that `let` without `mut` creates an immutable variable that CANNOT be changed (unlike JavaScript/Python where variables are mutable by default), and show what error you get if you try.\",\n  \"common_patterns\": [\n    \"Pattern 1: Detailed description explaining when to use it, why it's preferred, and what problems it solves\",\n    \"Pattern 2: Detailed description explaining when to use it, why it's preferred, and what problems it solves\"\n  ],\n  \"exercises\": [\n    {\n      \"title\": \"Exercise title\",\n      \"description\": \"Detailed step-by-step instructions\",\n      \"hints\": [\"Hint 1\", \"Hint 2\"],\n      \"example_input\": \"example input (use empty string \\\"\\\" if no input needed, but ALWAYS include this field)\",\n      \"example_output\": \"expected output (show what the code should produce/print, ALWAYS include this field)\",\n      \"test_cases\": [\n        {\"input\": \"...\", \"output\": \"...\"},\n        {\"input\": \"...\", \"output\": \"...\"},\n        {\"input\": \"...\", \"output\": \"...\"}\n      ]\n       **CRITICAL: The \"test_cases\" array MUST contain at least 2-3 test cases. Test cases MUST validate the exercise requirements and align with the description and hints.**\n    }\n  ]\n}\n\n       **CRITICAL: The \"exercises\" array is REQUIRED and must contain at least ".spec_bytes()
        + dec_spec(lesson_type.spec_exercise_count())
        + " exercise(s). Do not omit this field.**\n\n       **IMPORTANT JSON FORMATTING RULES:**\n       - Output ONLY valid JSON - no markdown code fences, no explanatory text before or after\n       - Ensure all strings are properly escaped (use \\\" for quotes inside strings)\n       - Ensure all brackets and braces are properly closed\n       - Do not include trailing commas\n       - Make sure the JSON is complete and valid before finishing\n\n       Generate the educational lesson now. Output ONLY the JSON object, nothing else:".spec_bytes()
}

impl Ruleset {
    /// Builds the generation prompt for the given lesson parameters.
    #[verifier::rlimit(50)]
    pub fn generate_prompt(
        language: Language,
        difficulty: Difficulty,
        lesson_type: LessonType,
        topic: &[u8],
    ) -> (r: Vec<u8>)
        ensures
            r@ == prompt_spec(language, difficulty, lesson_type, topic@),
    {
    let mut out = bytes_of("You are a coding education assistant similar to Codecademy and Coddy. Generate an educational lesson following these rules:\n\nLANGUAGE: ");
    let p = language.display_name_bytes();
    push_bytes(&mut out, p.as_slice());
    let c = bytes_of("\nDIFFICULTY: ");
    push_bytes(&mut out, c.as_slice());
    let p = difficulty.display_name_bytes();
    push_bytes(&mut out, p.as_slice());
    let c = bytes_of("\nLESSON TYPE: ");
    push_bytes(&mut out, c.as_slice());
    let p = lesson_type.display_name_bytes();
    push_bytes(&mut out, p.as_slice());
    let c = bytes_of("\nTOPIC: ");
    push_bytes(&mut out, c.as_slice());
    push_bytes(&mut out, topic);
    let c = bytes_of("\n\nTEACHING STYLE REQUIREMENTS:\n1. **Concept Introduction**: Provide a clear, beginner-friendly explanation of what the concept is (5-7 sentences). Include:\n   - What the concept is and why it exists\n   - How it differs from other languages (if applicable)\n   - Why this design choice was made (the reasoning behind it)\n   - Common misconceptions or differences from languages like JavaScript, Python, C++, etc.\n   - Real-world context: when and why you'd use this feature\n2. **Step-by-Step Explanation**: Break down how the concept works in simple steps (4-6 steps). Each step should explain:\n   - What happens at that step\n   - Why it works that way\n   - How it differs from similar concepts in other languages (if applicable)\n3. **Code Examples**: **CRITICAL: You MUST provide at least 2 code examples** (2-3 total). Each example should have detailed line-by-line explanations. Include:\n   - What each line does\n   - Why it's written that way\n   - What would happen if you tried to do it differently\n   - Comparisons to how you'd do it in other languages (if relevant)\n4. **Syntax Guide**: Explain the syntax clearly, showing how to write it with examples. Include:\n   - The exact syntax rules\n   - What each part means\n   - Common variations\n   - What happens if you omit parts (e.g., what if you forget `mut`?)\n5. **Common Patterns**: Show 2-3 common use cases or patterns for this concept. Explain:\n   - When to use each pattern\n   - Why that pattern is preferred\n   - What problems it solves\n6. **Guided Exercise**: Create ");
    push_bytes(&mut out, c.as_slice());
    push_dec(&mut out, lesson_type.exercise_count() as u64);
    let c = bytes_of(" exercise(s) with:\n   - Clear step-by-step instructions that explain WHAT to do and HOW to do it\n   - **CRITICAL FOR BEGINNER EXERCISES**: For basic concepts like variable declaration, use hardcoded values. DO NOT require input reading unless the topic explicitly teaches input/output. Keep it simple for beginners.\n   - **CRITICAL**: DO NOT create exercises that require compilation errors to produce expected output. If you want to teach about errors, explain them in the concept/step-by-step sections, but exercises should produce valid, compilable code that runs successfully.\n   - **CRITICAL**: If the exercise requires reading input, EXPLICITLY state this in the description and explain HOW to read input for the language with code examples\n   - **CRITICAL**: If the exercise requires output, EXPLICITLY state this in the description\n   - Detailed hints on how to approach it (be specific, not vague)\n   - **Example input/output**: ALWAYS provide these fields:\n     * \"example_input\": Show what input the program should read (use empty string \"\" if no input needed - this is preferred for beginner exercises)\n     * \"example_output\": Show what the program should output/print (ALWAYS include this - even if just showing variable values or function results)\n     * For variable declaration exercises: Use hardcoded values and show what the code should output (e.g., print the variable value). DO NOT require input reading.\n     * For exercises requiring input: clearly state \"Your program should read input from stdin\" and show example input values with code examples\n   - **CRITICAL: Test cases are REQUIRED** - You MUST include at least 2-3 test cases for EVERY exercise:\n     * Test cases MUST align with the exercise description and hints\n     * Test cases MUST validate what the exercise asks the student to do\n     * If the exercise asks to print something, test cases should check that exact output\n     * If the exercise asks to calculate something, test cases should verify the calculation\n     * **IMPORTANT**: If test cases have different outputs but no input, this is an error. Either:\n       - Use the same expected output for all test cases (for exercises without input), OR\n       - Provide input values for each test case (for exercises with input)\n   - **IMPORTANT: You MUST include at least ");
    push_bytes(&mut out, c.as_slice());
    push_dec(&mut out, lesson_type.exercise_count() as u64);
    let c = bytes_of(" exercise(s) in the \"exercises\" array, and EACH exercise MUST have test_cases with at least 2-3 test cases**\n\nEDUCATIONAL FOCUS:\n- Teach HOW to write the code, not just what to write\n- Explain WHY certain syntax is used and the reasoning behind design choices\n- Compare and contrast with other languages (JavaScript, Python, C++, etc.) to help learners understand differences\n- Show common mistakes and how to avoid them, including what happens if you try to do things the \"other language way\"\n- Make it practical and applicable to real coding\n- For ");
    push_bytes(&mut out, c.as_slice());
    let p = lesson_type.display_name_bytes();
    push_bytes(&mut out, p.as_slice());
    let c = bytes_of(" lessons, focus on ");
    push_bytes(&mut out, c.as_slice());
    push_dec(&mut out, lesson_type.concept_count() as u64);
    let c = bytes_of(" core concept(s)\n- Match the complexity to ");
    push_bytes(&mut out, c.as_slice());
    let p = difficulty.display_name_bytes();
    push_bytes(&mut out, p.as_slice());
    let c = bytes_of(" difficulty level\n- **SPECIAL FOR RUST**: When explaining concepts like immutability, ownership, borrowing, etc.:\n  * Explain how Rust differs from other languages (e.g., in JavaScript/Python, variables are mutable by default)\n  * Explain WHY Rust made these design choices (memory safety, preventing bugs, etc.)\n  * Show what happens if you try to change an immutable variable (the compiler error)\n  * Compare to how you'd do it in other languages\n  * Explain the benefits and trade-offs\n- **SPECIAL FOR COMPILATION TOPICS**: \n  * Explain the compilation/build process step-by-step\n  * Show actual command-line examples (e.g., \"g++ -o program program.cpp\")\n  * Explain what each flag/option does\n  * Show how to run the compiled program\n  * For C++: Cover both direct g++ compilation and CMake basics\n  * For Rust: Cover both rustc direct compilation and Cargo project management\n  * For JavaScript: Explain Node.js execution, no compilation needed but show how to run scripts\n\nOUTPUT FORMAT (JSON):\n{\n  \"concept\": \"Clear, detailed explanation (5-7 sentences) of what the concept is, why it exists, how it differs from other languages, and the reasoning behind the design choice. Include comparisons to JavaScript, Python, C++, etc. when relevant. For Rust immutability, explain that `let` without `mut` creates an immutable variable that CANNOT be changed after assignment (unlike JavaScript/Python where variables are mutable by default), and explain WHY Rust made this design choice (memory safety, preventing bugs, etc.).\",\n  \"step_by_step\": [\n    \"Step 1: Detailed explanation including what happens and why\",\n    \"Step 2: Detailed explanation including what happens and why\",\n    \"Step 3: Detailed explanation including what happens and why\"\n  ],\n  \"code_examples\": [\n    {\n      \"code\": \"example code here\",\n      \"explanation\": \"Detailed line-by-line explanation of what this code does, why it's written that way, what would happen if done differently, and comparisons to other languages when relevant. For Rust, show what compiler error you get if you try to change an immutable variable.\"\n    },\n    {\n      \"code\": \"another example code here\",\n      \"explanation\": \"Detailed explanation of this second example, showing a different approach or variation.\"\n    }\n  ],\n   **CRITICAL: The \"code_examples\" array MUST contain at least 2 examples. Do not provide just 1 example.**\n  \"syntax_guide\": \"Detailed explanation of the syntax with examples. Include what each part means, what happens if you omit parts, and comparisons to other languages. For Rust immutability, explain that `let` without `mut` creates an immutable variable that CANNOT be changed (unlike JavaScript/Python where variables are mutable by default), and show what error you get if you try.\",\n  \"common_patterns\": [\n    \"Pattern 1: Detailed description explaining when to use it, why it's preferred, and what problems it solves\",\n    \"Pattern 2: Detailed description explaining when to use it, why it's preferred, and what problems it solves\"\n  ],\n  \"exercises\": [\n    {\n      \"title\": \"Exercise title\",\n      \"description\": \"Detailed step-by-step instructions\",\n      \"hints\": [\"Hint 1\", \"Hint 2\"],\n      \"example_input\": \"example input (use empty string \\\"\\\" if no input needed, but ALWAYS include this field)\",\n      \"example_output\": \"expected output (show what the code should produce/print, ALWAYS include this field)\",\n      \"test_cases\": [\n        {\"input\": \"...\", \"output\": \"...\"},\n        {\"input\": \"...\", \"output\": \"...\"},\n        {\"input\": \"...\", \"output\": \"...\"}\n      ]\n       **CRITICAL: The \"test_cases\" array MUST contain at least 2-3 test cases. Test cases MUST validate the exercise requirements and align with the description and hints.**\n    }\n  ]\n}\n\n       **CRITICAL: The \"exercises\" array is REQUIRED and must contain at least ");
    push_bytes(&mut out, c.as_slice());
    push_dec(&mut out, lesson_type.exercise_count() as u64);
    let c = bytes_of(" exercise(s). Do not omit this field.**\n\n       **IMPORTANT JSON FORMATTING RULES:**\n       - Output ONLY valid JSON - no markdown code fences, no explanatory text before or after\n       - Ensure all strings are properly escaped (use \\\" for quotes inside strings)\n       - Ensure all brackets and braces are properly closed\n       - Do not include trailing commas\n       - Make sure the JSON is complete and valid before finishing\n\n       Generate the educational lesson now. Output ONLY the JSON object, nothing else:");
    push_bytes(&mut out, c.as_slice());
        proof {
            assert(out@ =~= prompt_spec(language, difficulty, lesson_type, topic@));
        }
        out
    }
}

} // verus!
