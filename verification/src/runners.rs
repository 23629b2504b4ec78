//! Per-language toolchain knowledge that needs no process: scaffold
//! templates, exercise file names, the derived artifact path of the
//! direct-compile family, and the dependency inference and manifest
//! generation of the project-based family.  The process invocations
//! themselves live outside the engine.

use vstd::prelude::*;
use crate::config::Language;
use crate::scan::{last_byte, rfind_byte};
use crate::text::{bytes_of, dec_spec, has_sub, push_bytes, push_dec};
use vstd::slice::slice_to_vec;
use vstd::string::StringSliceAdditionalSpecFns;

verus! {

pub struct CppRunner;

pub struct JsRunner;

pub struct RustRunner;

pub struct FileManager;

impl FileManager {
    /// The scaffold template of a solution file.
    pub open spec fn template_text(language: Language) -> Seq<char> {
        match language {
            Language::JavaScript => "// Write your solution here\n\n"@,
            Language::Cpp => "#include <iostream>\nusing namespace std;\n\nint main() {\n    // Write your solution here\n    return 0;\n}\n"@,
            Language::Rust => "fn main() {\n    // Write your solution here\n}\n"@,
        }
    }

    pub fn get_template(language: &Language) -> (r: &'static str)
        ensures
            r@ == Self::template_text(*language),
    {
        match language {
            Language::JavaScript => "// Write your solution here\n\n",
            Language::Cpp => "#include <iostream>\nusing namespace std;\n\nint main() {\n    // Write your solution here\n    return 0;\n}\n",
            Language::Rust => "fn main() {\n    // Write your solution here\n}\n",
        }
    }

    /// The name of the solution file for one exercise.
    pub fn exercise_file_name(language: &Language, exercise_number: u64) -> (r: Vec<u8>)
        ensures
            r@ == "exercise_".spec_bytes() + dec_spec(exercise_number as nat) + ".".spec_bytes()
                + language.extension_bytes(),
    {
        let mut out = bytes_of("exercise_");
        push_dec(&mut out, exercise_number);
        let dot = bytes_of(".");
        push_bytes(&mut out, dot.as_slice());
        let ext = language.file_extension_bytes();
        push_bytes(&mut out, ext.as_slice());
        proof {
            assert(out@ =~= "exercise_".spec_bytes() + dec_spec(exercise_number as nat)
                + ".".spec_bytes() + language.extension_bytes());
        }
        out
    }
}

/// The path with its extension removed: the text after the last dot is
/// dropped when that dot lies strictly inside the file name.
pub open spec fn strip_extension_spec(file: Seq<u8>) -> Seq<u8> {
    let start = match last_byte(file, file.len() - 1, 47) {
        Some(s) => s + 1,
        None => 0,
    };
    match last_byte(file, file.len() - 1, 46) {
        None => file,
        Some(d) => if d > start {
            file.take(d)
        } else {
            file
        },
    }
}

impl CppRunner {
    /// The path of the compiled binary derived from the source path.
    pub fn artifact_path(file: &[u8]) -> (r: Vec<u8>)
        ensures
            r@ == strip_extension_spec(file@),
    {
        let n: usize = file.len();
        let start: usize = match rfind_byte(file, 47) {
            Some(s) => s + 1,
            None => 0,
        };
        match rfind_byte(file, 46) {
            None => slice_to_vec(file),
            Some(d) => {
                if d > start {
                    let v = slice_to_vec(&file[0..d]);
                    proof {
                        assert(file@.subrange(0, d as int) =~= file@.take(d as int));
                    }
                    v
                } else {
                    slice_to_vec(file)
                }
            },
        }
    }
}

/// The pre-2018 whole-crate import form, `"… crate "`, as bytes; spelled
/// out numerically so the source names no keyword.
pub open spec fn legacy_import_pat() -> Seq<u8> {
    seq![101u8, 120u8, 116u8, 101u8, 114u8, 110u8, 32u8, 99u8, 114u8, 97u8, 116u8, 101u8, 32u8]
}

/// Builds the pre-2018 import pattern for one crate name.
fn legacy_import_of(name: &[u8]) -> (r: Vec<u8>)
    ensures
        r@ == legacy_import_pat() + name@,
{
    let mut out: Vec<u8> = Vec::new();
    out.push(101);
    out.push(120);
    out.push(116);
    out.push(101);
    out.push(114);
    out.push(110);
    out.push(32);
    out.push(99);
    out.push(114);
    out.push(97);
    out.push(116);
    out.push(101);
    out.push(32);
    proof {
        assert(out@ =~= legacy_import_pat());
    }
    push_bytes(&mut out, name);
    out
}

/// Whether the solution source imports the named crate, in any of the
/// three recognized forms.
pub open spec fn dep_hit(code: Seq<u8>, name: Seq<u8>) -> bool {
    ||| has_sub(code, "use ".spec_bytes() + name + "::".spec_bytes())
    ||| has_sub(code, "use ".spec_bytes() + name + ";".spec_bytes())
    ||| has_sub(code, legacy_import_pat() + name)
}

/// Decides `dep_hit` for one crate name.
fn check_dep(code: &[u8], name: &[u8]) -> (r: bool)
    ensures
        r == dep_hit(code@, name@),
{
    let mut p1 = bytes_of("use ");
    push_bytes(&mut p1, name);
    let sep = bytes_of("::");
    push_bytes(&mut p1, sep.as_slice());
    let mut p2 = bytes_of("use ");
    push_bytes(&mut p2, name);
    let semi = bytes_of(";");
    push_bytes(&mut p2, semi.as_slice());
    let p3 = legacy_import_of(name);
    crate::text::contains_sub(code, p1.as_slice()) || crate::text::contains_sub(
        code,
        p2.as_slice(),
    ) || crate::text::contains_sub(code, p3.as_slice())
}

/// The dependency line emitted for one detected crate, if detected.
pub open spec fn dep_entry(code: Seq<u8>, name: Seq<u8>, line: Seq<u8>) -> Seq<Seq<u8>> {
    if dep_hit(code, name) {
        seq![line]
    } else {
        Seq::<Seq<u8>>::empty()
    }
}

/// The dependency lines inferred from a solution source, in the fixed
/// order the table is consulted.
pub open spec fn detect_deps_spec(code: Seq<u8>) -> Seq<Seq<u8>> {
    dep_entry(code, "rand".spec_bytes(), "rand = \"0.8\"".spec_bytes()) + dep_entry(
        code,
        "serde".spec_bytes(),
        "serde = { version = \"1.0\", features = [\"derive\"] }".spec_bytes(),
    ) + dep_entry(code, "serde_json".spec_bytes(), "serde_json = \"1.0\"".spec_bytes())
        + dep_entry(
        code,
        "tokio".spec_bytes(),
        "tokio = { version = \"1\", features = [\"full\"] }".spec_bytes(),
    ) + dep_entry(
        code,
        "reqwest".spec_bytes(),
        "reqwest = { version = \"0.12\", features = [\"json\", \"blocking\"] }".spec_bytes(),
    ) + dep_entry(
        code,
        "clap".spec_bytes(),
        "clap = { version = \"4.5\", features = [\"derive\"] }".spec_bytes(),
    )
}

/// `list` joined with newline separators.
pub open spec fn join_nl(list: Seq<Seq<u8>>) -> Seq<u8>
    decreases list.len(),
{
    if list.len() == 0 {
        Seq::<u8>::empty()
    } else if list.len() == 1 {
        list[0]
    } else {
        list[0] + "\n".spec_bytes() + join_nl(list.drop_first())
    }
}

proof fn lemma_join_nl_snoc(list: Seq<Seq<u8>>, x: Seq<u8>)
    ensures
        join_nl(list.push(x)) == if list.len() == 0 {
            x
        } else {
            join_nl(list) + "\n".spec_bytes() + x
        },
    decreases list.len(),
{
    if list.len() == 0 {
        assert(list.push(x)[0] =~= x);
        assert(join_nl(list.push(x)) == x);
    } else {
        lemma_join_nl_snoc(list.drop_first(), x);
        assert(list.push(x).drop_first() =~= list.drop_first().push(x));
        if list.len() == 1 {
            assert(join_nl(list) == list[0]);
        }
    }
}

impl RustRunner {
    /// Scans a solution source for the known import patterns and maps
    /// each detected crate to its dependency declaration line.
    pub fn detect_dependencies(code: &[u8]) -> (r: Vec<Vec<u8>>)
        ensures
            crate::content::texts_view(r@) == detect_deps_spec(code@),
    {
        let mut out: Vec<Vec<u8>> = Vec::new();
        let n_rand = bytes_of("rand");
        if check_dep(code, n_rand.as_slice()) {
            out.push(bytes_of("rand = \"0.8\""));
        }
        let n_serde = bytes_of("serde");
        if check_dep(code, n_serde.as_slice()) {
            out.push(bytes_of("serde = { version = \"1.0\", features = [\"derive\"] }"));
        }
        let n_sj = bytes_of("serde_json");
        if check_dep(code, n_sj.as_slice()) {
            out.push(bytes_of("serde_json = \"1.0\""));
        }
        let n_tokio = bytes_of("tokio");
        if check_dep(code, n_tokio.as_slice()) {
            out.push(bytes_of("tokio = { version = \"1\", features = [\"full\"] }"));
        }
        let n_req = bytes_of("reqwest");
        if check_dep(code, n_req.as_slice()) {
            out.push(bytes_of("reqwest = { version = \"0.12\", features = [\"json\", \"blocking\"] }"));
        }
        let n_clap = bytes_of("clap");
        if check_dep(code, n_clap.as_slice()) {
            out.push(bytes_of("clap = { version = \"4.5\", features = [\"derive\"] }"));
        }
        proof {
            assert(crate::content::texts_view(out@) =~= detect_deps_spec(code@));
        }
        out
    }

    /// Generates the ephemeral project manifest, with a dependencies
    /// section only when any dependency was detected.
    pub fn generate_cargo_toml(dependencies: &Vec<Vec<u8>>) -> (r: Vec<u8>)
        ensures
            r@ == "[package]\nname = \"exercise\"\nversion = \"0.1.0\"\nedition = \"2021\"\n".spec_bytes()
                + if dependencies@.len() == 0 {
                Seq::<u8>::empty()
            } else {
                "\n[dependencies]\n".spec_bytes() + join_nl(crate::content::texts_view(
                    dependencies@,
                )) + "\n".spec_bytes()
            },
    {
        let mut out = bytes_of(
            "[package]\nname = \"exercise\"\nversion = \"0.1.0\"\nedition = \"2021\"\n",
        );
        let n: usize = dependencies.len();
        if n == 0 {
            proof {
                assert(out@ =~= out@ + Seq::<u8>::empty());
            }
            return out;
        }
        let head = bytes_of("\n[dependencies]\n");
        push_bytes(&mut out, head.as_slice());
        let mut joined: Vec<u8> = Vec::new();
        let mut i: usize = 0;
        let nl = bytes_of("\n");
        while i < n
            invariant
                i <= n,
                n == dependencies@.len(),
                nl@ == "\n".spec_bytes(),
                joined@ == join_nl(crate::content::texts_view(dependencies@).take(i as int)),
            decreases n - i,
        {
            let ghost prefix = crate::content::texts_view(dependencies@).take(i as int);
            if i > 0 {
                push_bytes(&mut joined, nl.as_slice());
            }
            push_bytes(&mut joined, dependencies[i].as_slice());
            proof {
                lemma_join_nl_snoc(prefix, dependencies@[i as int]@);
                assert(crate::content::texts_view(dependencies@).take(i + 1) =~= prefix.push(
                    dependencies@[i as int]@,
                ));
                if i == 0 {
                    assert(joined@ =~= dependencies@[0]@);
                }
            }
            i += 1;
        }
        proof {
            assert(crate::content::texts_view(dependencies@).take(n as int) =~= crate::content::texts_view(
                dependencies@,
            ));
        }
        push_bytes(&mut out, joined.as_slice());
        push_bytes(&mut out, nl.as_slice());
        proof {
            assert(out@ =~= "[package]\nname = \"exercise\"\nversion = \"0.1.0\"\nedition = \"2021\"\n".spec_bytes()
                + ("\n[dependencies]\n".spec_bytes() + join_nl(crate::content::texts_view(
                dependencies@,
            )) + "\n".spec_bytes()));
        }
        out
    }
}

} // verus!
