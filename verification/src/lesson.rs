//! The top of the content pipeline: raise recovered or synthesized
//! content to the guaranteed floors (at least two code examples, at least
//! one exercise, test cases everywhere), and the single entry point that
//! turns raw model output into well-formed lesson content, whatever the
//! input.

use vstd::prelude::*;
use crate::config::Language;
use crate::content::{
    CodeExample, CodeExampleV, Exercise, ExerciseV, GeneratedContent, GeneratedContentV,
    texts_view,
};
use crate::decode::spec_content;
use crate::recovery::{recover, spec_extract, RecoveryResult};
use crate::synthesis::{
    spec_fallback_content, spec_fallback_exercise, spec_gen_tests, topic_content_spec, Generator,
};
use crate::scan::{push_repeat, repeat_byte};
use crate::text::{bytes_of, copy_bytes, dec_spec, is_space_b, push_bytes, push_dec};
use vstd::string::StringSliceAdditionalSpecFns;

verus! {

/// The placeholder example appended when fewer than two examples exist.
pub open spec fn placeholder_example(n: int, topic: Seq<u8>, language: Language) -> CodeExampleV {
    CodeExampleV {
        code: "// Example ".spec_bytes() + dec_spec(n as nat) + " for ".spec_bytes() + topic
            + " in ".spec_bytes() + language.display_bytes()
            + "\n// Add your code here".spec_bytes(),
        explanation: "Example ".spec_bytes() + dec_spec(n as nat) + " demonstrating ".spec_bytes()
            + topic + " in ".spec_bytes() + language.display_bytes() + ".".spec_bytes(),
    }
}

/// An exercise with its test cases regenerated when it has none.
pub open spec fn refreshed_exercise(e: ExerciseV) -> ExerciseV {
    if e.test_cases.len() == 0 {
        let out = match e.example_output {
            Some(o) => o,
            None => Seq::<u8>::empty(),
        };
        ExerciseV {
            title: e.title,
            description: e.description,
            hints: e.hints,
            example_input: e.example_input,
            example_output: e.example_output,
            test_cases: spec_gen_tests(e.description, out),
        }
    } else {
        e
    }
}

/// Content raised to the floors: curated or placeholder examples up to
/// two, a fallback exercise when none exist, and test cases in every
/// exercise.
pub open spec fn spec_with_minimums(
    c: GeneratedContentV,
    language: Language,
    topic: Seq<u8>,
) -> GeneratedContentV {
    let ex0 = if c.code_examples.len() < 2 {
        let te = topic_content_spec(language, topic).1;
        if te.len() > 0 && c.code_examples.len() == 0 {
            te
        } else {
            c.code_examples
        }
    } else {
        c.code_examples
    };
    let ex1 = if ex0.len() == 0 {
        seq![placeholder_example(1, topic, language), placeholder_example(2, topic, language)]
    } else if ex0.len() == 1 {
        ex0.push(placeholder_example(2, topic, language))
    } else {
        ex0
    };
    let exs = if c.exercises.len() == 0 {
        seq![spec_fallback_exercise(language, topic)]
    } else {
        c.exercises.map_values(|e: ExerciseV| refreshed_exercise(e))
    };
    GeneratedContentV {
        concept: c.concept,
        step_by_step: c.step_by_step,
        code_examples: ex1,
        syntax_guide: c.syntax_guide,
        common_patterns: c.common_patterns,
        exercises: exs,
    }
}

/// Example-floor law: whatever content recovery or synthesis produced,
/// raising it to the minimums yields well-formed content — at least two
/// code examples, at least one exercise, and a test case in every
/// exercise.
pub proof fn lemma_minimums_wf(c: GeneratedContentV, language: Language, topic: Seq<u8>)
    ensures
        spec_with_minimums(c, language, topic).wf(),
{
    let te = topic_content_spec(language, topic).1;
    assert(te.len() == 0 || te.len() == 2);
    let out = spec_with_minimums(c, language, topic);
    assert(out.code_examples.len() >= 2);
    if c.exercises.len() == 0 {
        assert(spec_fallback_exercise(language, topic).test_cases.len() == 3);
    } else {
        assert forall|i: int|
            0 <= i < out.exercises.len() implies (#[trigger] out.exercises[i]).has_tests() by {
            let e = c.exercises[i];
            if e.test_cases.len() == 0 {
                assert(refreshed_exercise(e).test_cases.len() == 3);
            }
        }
    }
}

/// Builds one placeholder example.
fn placeholder_example_exec(n: u64, topic: &[u8], language: Language) -> (r: CodeExample)
    ensures
        r@ == placeholder_example(n as int, topic@, language),
{
    let mut code = bytes_of("// Example ");
    push_dec(&mut code, n);
    let f = bytes_of(" for ");
    push_bytes(&mut code, f.as_slice());
    push_bytes(&mut code, topic);
    let m = bytes_of(" in ");
    push_bytes(&mut code, m.as_slice());
    let lang = language.display_name_bytes();
    push_bytes(&mut code, lang.as_slice());
    let tail = bytes_of("\n// Add your code here");
    push_bytes(&mut code, tail.as_slice());
    let mut explanation = bytes_of("Example ");
    push_dec(&mut explanation, n);
    let d = bytes_of(" demonstrating ");
    push_bytes(&mut explanation, d.as_slice());
    push_bytes(&mut explanation, topic);
    push_bytes(&mut explanation, m.as_slice());
    push_bytes(&mut explanation, lang.as_slice());
    let dot = bytes_of(".");
    push_bytes(&mut explanation, dot.as_slice());
    let e = CodeExample { code, explanation };
    proof {
        assert(e@.code =~= placeholder_example(n as int, topic@, language).code);
        assert(e@.explanation =~= placeholder_example(n as int, topic@, language).explanation);
    }
    e
}

/// Regenerates test cases for every exercise that has none.
fn refresh_exercises(language: Language, list: Vec<Exercise>) -> (r: Vec<Exercise>)
    ensures
        r@.map_values(|e: Exercise| e@) == list@.map_values(|e: Exercise| e@).map_values(
            |e: ExerciseV| refreshed_exercise(e),
        ),
        r@.len() == list@.len(),
{
    let ghost old_v = list@.map_values(|e: Exercise| e@);
    let mut rest = list;
    let mut updated: Vec<Exercise> = Vec::new();
    proof {
        assert(rest@.map_values(|e: Exercise| e@) =~= old_v.skip(0));
        assert(updated@.map_values(|e: Exercise| e@) =~= old_v.take(0).map_values(
            |e: ExerciseV| refreshed_exercise(e),
        ));
    }
    while rest.len() > 0
        invariant
            updated@.len() + rest@.len() == old_v.len(),
            rest@.map_values(|e: Exercise| e@) == old_v.skip(updated@.len() as int),
            updated@.map_values(|e: Exercise| e@) == old_v.take(updated@.len() as int).map_values(
                |e: ExerciseV| refreshed_exercise(e),
            ),
        decreases rest@.len(),
    {
        let ghost k = updated@.len() as int;
        let ghost pre = rest@;
        let ex: Exercise = rest.remove(0);
        proof {
            assert(ex@ == pre.map_values(|e: Exercise| e@)[0]);
            assert(ex@ == old_v[k]);
            assert(rest@.map_values(|e: Exercise| e@) =~= pre.map_values(
                |e: Exercise| e@,
            ).remove(0));
            assert(pre.map_values(|e: Exercise| e@).remove(0) =~= old_v.skip(k + 1));
        }
        let ex2: Exercise = if ex.test_cases.len() == 0 {
            let out: Vec<u8> = match &ex.example_output {
                Some(o) => copy_bytes(o),
                None => Vec::new(),
            };
            let tests = Generator::generate_test_cases_for_exercise(
                language,
                ex.description.as_slice(),
                out.as_slice(),
            );
            Exercise {
                title: ex.title,
                description: ex.description,
                hints: ex.hints,
                example_input: ex.example_input,
                example_output: ex.example_output,
                test_cases: tests,
            }
        } else {
            ex
        };
        proof {
            assert(ex2@ == refreshed_exercise(old_v[k]));
        }
        let ghost prev = updated@;
        updated.push(ex2);
        proof {
            assert(updated@.map_values(|e: Exercise| e@) =~= prev.map_values(
                |e: Exercise| e@,
            ).push(ex2@));
            assert(old_v.take(k + 1).map_values(|e: ExerciseV| refreshed_exercise(e)) =~= old_v.take(
                k,
            ).map_values(|e: ExerciseV| refreshed_exercise(e)).push(refreshed_exercise(old_v[k])));
        }
        proof {
            assert(rest@.map_values(|e: Exercise| e@) == old_v.skip(updated@.len() as int));
        }
    }
    proof {
        assert(old_v.take(old_v.len() as int) =~= old_v);
    }
    updated
}

/// Raises content to the floors every lesson must satisfy.
pub fn ensure_minimums(content: &mut GeneratedContent, language: Language, topic: &[u8])
    ensures
        final(content)@ == spec_with_minimums(old(content)@, language, topic@),
        final(content)@.wf(),
{
    if content.code_examples.len() < 2 {
        let tcv = Generator::generate_topic_specific_content(language, topic);
        if tcv.1.len() > 0 && content.code_examples.len() == 0 {
            content.code_examples = tcv.1;
        }
    }
    let ghost ex0 = content.code_examples@.map_values(|e: CodeExample| e@);
    if content.code_examples.len() == 0 {
        content.code_examples.push(placeholder_example_exec(1, topic, language));
        content.code_examples.push(placeholder_example_exec(2, topic, language));
        proof {
            assert(content.code_examples@.map_values(|e: CodeExample| e@) =~= seq![
                placeholder_example(1, topic@, language),
                placeholder_example(2, topic@, language),
            ]);
        }
    } else if content.code_examples.len() == 1 {
        content.code_examples.push(placeholder_example_exec(2, topic, language));
        proof {
            assert(content.code_examples@.map_values(|e: CodeExample| e@) =~= ex0.push(
                placeholder_example(2, topic@, language),
            ));
        }
    }
    if content.exercises.len() == 0 {
        content.exercises.push(Generator::create_fallback_exercise_with_tests(language, topic));
        proof {
            assert(content.exercises@.map_values(|e: Exercise| e@) =~= seq![
                spec_fallback_exercise(language, topic@),
            ]);
            assert(spec_fallback_exercise(language, topic@).test_cases.len() == 3);
        }
    } else {
        let ghost old_v = content.exercises@.map_values(|e: Exercise| e@);
        let mut taken: Vec<Exercise> = Vec::new();
        core::mem::swap(&mut taken, &mut content.exercises);
        content.exercises = refresh_exercises(language, taken);
        proof {
            assert forall|e: ExerciseV| (#[trigger] refreshed_exercise(e)).has_tests() by {
                if e.test_cases.len() == 0 {
                    assert(refreshed_exercise(e).test_cases.len() == 3);
                }
            }
            assert forall|i: int|
                0 <= i < content@.exercises.len() implies (#[trigger] content@.exercises[i]).has_tests() by {
                assert(content@.exercises[i] == refreshed_exercise(old_v[i]));
            }
        }
    }
}

/// How a lesson's content was obtained.
#[derive(Clone, Copy, Debug, PartialEq, Eq, Structural)]
pub enum RecoveryTag {
    Parsed,
    Repaired,
    Synthesized,
}

/// Turns raw model output into well-formed lesson content: recovery when
/// a span parses and decodes, full synthesis otherwise, and the floors
/// raised in every case.  This never fails, whatever the input.
pub fn recover_lesson(language: Language, topic: &[u8], response: &[u8]) -> (r: (
    GeneratedContent,
    RecoveryTag,
))
    ensures
        r.0@.wf(),
        ({
            let ex = spec_extract(response@);
            match r.1 {
                RecoveryTag::Parsed => ex matches Some((sp, d)) && d && spec_content(sp) is Some
                    && r.0@ == spec_with_minimums(spec_content(sp)->0, language, topic@),
                RecoveryTag::Repaired => ex matches Some((sp, d)) && !d && spec_content(sp) is Some
                    && r.0@ == spec_with_minimums(spec_content(sp)->0, language, topic@),
                RecoveryTag::Synthesized => (ex is None || spec_content((ex->0).0) is None) && r.0@
                    == spec_with_minimums(
                    spec_fallback_content(language, topic@, response@),
                    language,
                    topic@,
                ),
            }
        }),
{
    let (mut content, tag): (GeneratedContent, RecoveryTag) = match recover(response) {
        RecoveryResult::Parsed(c) => (c, RecoveryTag::Parsed),
        RecoveryResult::Repaired(c) => (c, RecoveryTag::Repaired),
        RecoveryResult::Failed(raw) => (
            Generator::create_fallback_from_response(language, topic, raw.as_slice(), raw.as_slice()),
            RecoveryTag::Synthesized,
        ),
    };
    ensure_minimums(&mut content, language, topic);
    (content, tag)
}

/// The index of the first whitespace byte at or after `i` (the length of
/// `s` when there is none).
pub open spec fn first_sp(s: Seq<u8>, i: int) -> int
    decreases s.len() - i,
{
    if i < 0 || i >= s.len() {
        s.len() as int
    } else if is_space_b(s[i]) {
        i
    } else {
        first_sp(s, i + 1)
    }
}

pub proof fn lemma_first_sp_bounds(s: Seq<u8>, i: int)
    requires
        0 <= i <= s.len(),
    ensures
        i <= first_sp(s, i) <= s.len(),
    decreases s.len() - i,
{
    if i < s.len() && !is_space_b(s[i]) {
        lemma_first_sp_bounds(s, i + 1);
    }
}

pub proof fn lemma_first_sp_char(s: Seq<u8>, i: int, e: int)
    requires
        0 <= i <= e <= s.len(),
        forall|k: int| i <= k < e ==> !is_space_b(s[k]),
        e < s.len() ==> is_space_b(s[e]),
    ensures
        first_sp(s, i) == e,
    decreases e - i,
{
    if i < e {
        lemma_first_sp_char(s, i + 1, e);
    }
}

/// The whitespace-separated words of `s`, in order.
pub open spec fn words_from(s: Seq<u8>, i: int) -> Seq<Seq<u8>>
    decreases s.len() - i,
{
    if i < 0 || i >= s.len() {
        Seq::<Seq<u8>>::empty()
    } else if is_space_b(s[i]) {
        words_from(s, i + 1)
    } else {
        proof {
            lemma_first_sp_bounds(s, i + 1);
        }
        seq![s.subrange(i, first_sp(s, i))] + words_from(s, first_sp(s, i))
    }
}

pub open spec fn words_of(s: Seq<u8>) -> Seq<Seq<u8>> {
    words_from(s, 0)
}

/// The greedy wrap over the word list: a line starts with the indent and
/// its first word; a word joins the line when it still fits within
/// `width` counting the separating space, and opens a new line
/// otherwise.
pub open spec fn wrap_from(
    ws: Seq<Seq<u8>>,
    i: int,
    cur: Seq<u8>,
    width: int,
    indent: int,
) -> Seq<u8>
    decreases ws.len() - i,
{
    if i < 0 || i >= ws.len() {
        cur
    } else {
        let w = ws[i];
        if cur.len() == 0 {
            wrap_from(ws, i + 1, repeat_byte(32, indent) + w, width, indent)
        } else if cur.len() + w.len() + 1 <= width {
            wrap_from(ws, i + 1, cur + seq![32u8] + w, width, indent)
        } else {
            cur + seq![10u8] + wrap_from(ws, i + 1, repeat_byte(32, indent) + w, width, indent)
        }
    }
}

/// The wrapped form of `text` at the given width and indent.
pub open spec fn wrap_spec(text: Seq<u8>, width: int, indent: int) -> Seq<u8> {
    wrap_from(words_of(text), 0, Seq::<u8>::empty(), width, indent)
}

/// Splits `text` into whitespace-separated words.
fn split_words(text: &[u8]) -> (r: Vec<Vec<u8>>)
    ensures
        texts_view(r@) == words_of(text@),
{
    let n: usize = text.len();
    let mut out: Vec<Vec<u8>> = Vec::new();
    let mut i: usize = 0;
    proof {
        assert(texts_view(out@) + words_from(text@, 0) =~= words_from(text@, 0));
    }
    while i < n
        invariant
            i <= n,
            n == text@.len(),
            words_of(text@) == texts_view(out@) + words_from(text@, i as int),
        decreases n - i,
    {
        if crate::text::is_space(text[i]) {
            i += 1;
        } else {
            let mut e: usize = i;
            while e < n && !crate::text::is_space(text[e])
                invariant
                    i <= e <= n,
                    n == text@.len(),
                    forall|k: int| i <= k < e ==> !is_space_b(text@[k]),
                decreases n - e,
            {
                e += 1;
            }
            proof {
                lemma_first_sp_char(text@, i as int, e as int);
            }
            let w = crate::text::subvec(text, i, e);
            let ghost prev = out@;
            out.push(w);
            proof {
                assert(texts_view(out@) =~= texts_view(prev).push(text@.subrange(
                    i as int,
                    e as int,
                )));
                assert(texts_view(prev) + (seq![text@.subrange(i as int, e as int)] + words_from(
                    text@,
                    e as int,
                )) =~= texts_view(out@) + words_from(text@, e as int));
            }
            i = e;
        }
    }
    proof {
        assert(texts_view(out@) + Seq::<Seq<u8>>::empty() =~= texts_view(out@));
    }
    out
}

/// Wraps `text` to `width` columns, indenting continuation lines.
pub fn wrap_text(text: &[u8], width: usize, indent: usize) -> (r: Vec<u8>)
    ensures
        r@ == wrap_spec(text@, width as int, indent as int),
{
    let words: Vec<Vec<u8>> = split_words(text);
    let ghost ws = texts_view(words@);
    let n: usize = words.len();
    let mut out: Vec<u8> = Vec::new();
    let mut cur: Vec<u8> = Vec::new();
    let mut i: usize = 0;
    proof {
        assert(out@ + wrap_from(ws, 0, cur@, width as int, indent as int) =~= wrap_from(
            ws,
            0,
            cur@,
            width as int,
            indent as int,
        ));
    }
    while i < n
        invariant
            i <= n,
            n == words@.len(),
            ws == texts_view(words@),
            wrap_spec(text@, width as int, indent as int) == out@ + wrap_from(
                ws,
                i as int,
                cur@,
                width as int,
                indent as int,
            ),
        decreases n - i,
    {
        let w: &Vec<u8> = &words[i];
        let ghost out0 = out@;
        let ghost cur0 = cur@;
        proof {
            assert(ws[i as int] == w@);
        }
        if cur.len() == 0 {
            let mut line: Vec<u8> = Vec::new();
            push_repeat(&mut line, 32, indent);
            push_bytes(&mut line, w.as_slice());
            proof {
                assert(line@ =~= repeat_byte(32, indent as int) + ws[i as int]);
            }
            cur = line;
        } else if w.len() < width && cur.len() <= width - w.len() - 1 {
            cur.push(32);
            push_bytes(&mut cur, w.as_slice());
            proof {
                assert(cur0.len() + ws[i as int].len() + 1 <= width);
                assert(cur@ =~= cur0 + seq![32u8] + ws[i as int]);
            }
        } else {
            proof {
                assert(!(cur0.len() + ws[i as int].len() + 1 <= width));
            }
            push_bytes(&mut out, cur.as_slice());
            out.push(10);
            let mut line: Vec<u8> = Vec::new();
            push_repeat(&mut line, 32, indent);
            push_bytes(&mut line, w.as_slice());
            proof {
                assert(line@ =~= repeat_byte(32, indent as int) + ws[i as int]);
                assert(out@ =~= out0 + cur0 + seq![10u8]);
                assert(wrap_from(ws, i as int, cur0, width as int, indent as int) == cur0 + seq![
                    10u8,
                ] + wrap_from(ws, i + 1, line@, width as int, indent as int));
                assert(out0 + (cur0 + seq![10u8] + wrap_from(
                    ws,
                    i + 1,
                    line@,
                    width as int,
                    indent as int,
                )) =~= out@ + wrap_from(ws, i + 1, line@, width as int, indent as int));
            }
            cur = line;
        }
        i += 1;
    }
    push_bytes(&mut out, cur.as_slice());
    out
}

/// The lesson flow's stateful pieces: the generator and the progress
/// tracker.  The presentation itself lives outside the engine.
pub struct LessonManager {
    pub generator: Generator,
    pub tracker: crate::tracker::Tracker,
}

impl LessonManager {
    /// A lesson manager over fresh progress.
    pub fn new() -> (r: LessonManager)
        ensures
            r.tracker.progress.current_lesson is None,
    {
        LessonManager { generator: Generator, tracker: crate::tracker::Tracker::from_progress(Default::default()) }
    }

    /// Backfills the example fields of every exercise in the content.
    pub fn prepare_content(content: &mut GeneratedContent)
        ensures
            final(content)@.concept == old(content)@.concept,
            final(content)@.step_by_step == old(content)@.step_by_step,
            final(content)@.code_examples == old(content)@.code_examples,
            final(content)@.syntax_guide == old(content)@.syntax_guide,
            final(content)@.common_patterns == old(content)@.common_patterns,
            final(content)@.exercises.len() == old(content)@.exercises.len(),
            forall|i: int|
                0 <= i < old(content)@.exercises.len() ==> crate::content::fill_rel(
                    old(content)@.exercises[i],
                    #[trigger] final(content)@.exercises[i],
                ),
    {
        let ghost old_v = content.exercises@.map_values(|e: Exercise| e@);
        let mut taken: Vec<Exercise> = Vec::new();
        core::mem::swap(&mut taken, &mut content.exercises);
        let mut rest = taken;
        let mut updated: Vec<Exercise> = Vec::new();
        proof {
            assert(rest@.map_values(|e: Exercise| e@) =~= old_v.skip(0));
        }
        while rest.len() > 0
            invariant
                updated@.len() + rest@.len() == old_v.len(),
                rest@.map_values(|e: Exercise| e@) == old_v.skip(updated@.len() as int),
                forall|k: int|
                    0 <= k < updated@.len() ==> crate::content::fill_rel(
                        old_v[k],
                        (#[trigger] updated@[k])@,
                    ),
            decreases rest@.len(),
        {
            let ghost k = updated@.len() as int;
            let ghost pre = rest@;
            let mut ex: Exercise = rest.remove(0);
            proof {
                assert(ex@ == pre.map_values(|e: Exercise| e@)[0]);
                assert(ex@ == old_v[k]);
                assert(rest@.map_values(|e: Exercise| e@) =~= pre.map_values(
                    |e: Exercise| e@,
                ).remove(0));
                assert(pre.map_values(|e: Exercise| e@).remove(0) =~= old_v.skip(k + 1));
            }
            ex.fill_example_fields();
            updated.push(ex);
        }
        content.exercises = updated;
        proof {
            assert forall|i: int|
                0 <= i < old_v.len() implies crate::content::fill_rel(
                old_v[i],
                #[trigger] content@.exercises[i],
            ) by {
                assert(content@.exercises[i] == content.exercises@.map_values(
                    |e: Exercise| e@,
                )[i]);
            }
        }
    }
}

} // verus!
