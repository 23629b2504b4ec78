//! The fixed menu data of the command layer: the pool of random topics
//! offered when none is entered, and the per-language compilation topic.
//! The command layer draws the random index; the choice of topic for a
//! given index is decided here.

use vstd::prelude::*;
use crate::config::Language;

verus! {

/// How many topics the random pool holds.
pub fn random_topic_count() -> (r: usize)
    ensures
        r == 20,
{
    20
}

/// The topic offered for a drawn index.
pub open spec fn spec_random_topic(i: int) -> Seq<char> {
    if i == 0 {
        "variables"@
    } else if i == 1 {
        "functions"@
    } else if i == 2 {
        "loops"@
    } else if i == 3 {
        "conditionals"@
    } else if i == 4 {
        "arrays"@
    } else if i == 5 {
        "strings"@
    } else if i == 6 {
        "data types"@
    } else if i == 7 {
        "operators"@
    } else if i == 8 {
        "control flow"@
    } else if i == 9 {
        "error handling"@
    } else if i == 10 {
        "recursion"@
    } else if i == 11 {
        "object-oriented programming"@
    } else if i == 12 {
        "memory management"@
    } else if i == 13 {
        "pointers"@
    } else if i == 14 {
        "iterators"@
    } else if i == 15 {
        "closures"@
    } else if i == 16 {
        "modules"@
    } else if i == 17 {
        "packages"@
    } else if i == 18 {
        "testing"@
    } else {
        "debugging"@
    }
}

/// The topic at a drawn index of the random pool.
pub fn random_topic_at(i: usize) -> (r: &'static str)
    requires
        i < 20,
    ensures
        r@ == spec_random_topic(i as int),
{
    if i == 0 {
        "variables"
    } else if i == 1 {
        "functions"
    } else if i == 2 {
        "loops"
    } else if i == 3 {
        "conditionals"
    } else if i == 4 {
        "arrays"
    } else if i == 5 {
        "strings"
    } else if i == 6 {
        "data types"
    } else if i == 7 {
        "operators"
    } else if i == 8 {
        "control flow"
    } else if i == 9 {
        "error handling"
    } else if i == 10 {
        "recursion"
    } else if i == 11 {
        "object-oriented programming"
    } else if i == 12 {
        "memory management"
    } else if i == 13 {
        "pointers"
    } else if i == 14 {
        "iterators"
    } else if i == 15 {
        "closures"
    } else if i == 16 {
        "modules"
    } else if i == 17 {
        "packages"
    } else if i == 18 {
        "testing"
    } else {
        "debugging"
    }
}

/// The lesson topic of the build-and-run guide per language.
pub open spec fn spec_compile_topic(language: Language) -> Seq<char> {
    match language {
        Language::JavaScript => "JavaScript execution with Node.js and running JavaScript programs"@,
        Language::Cpp => "C++ compilation using g++ compiler and CMake build system"@,
        Language::Rust => "Rust compilation with rustc compiler and Cargo package manager"@,
    }
}

pub fn compile_topic(language: Language) -> (r: &'static str)
    ensures
        r@ == spec_compile_topic(language),
{
    match language {
        Language::JavaScript => "JavaScript execution with Node.js and running JavaScript programs",
        Language::Cpp => "C++ compilation using g++ compiler and CMake build system",
        Language::Rust => "Rust compilation with rustc compiler and Cargo package manager",
    }
}

} // verus!
