//! Recovery of a JSON content object from free-form model output.
//!
//! Three extraction strategies are tried in order: a JSON-tagged fenced
//! block, a generic fenced block, and a brace-delimited span found by the
//! object scan.  A candidate that the parser rejects goes through
//! structural repair: an unterminated string is cut back to the last safe
//! quote (or the last complete comma-delimited field), unmatched brackets
//! and braces are closed, and the required-but-missing fields are injected
//! with empty defaults before the enclosing object is closed.  As a last
//! resort a minimal object is rebuilt around a complete quoted `concept`
//! value.  Every step is specified by a spec function over the named JSON
//! accessors, so that [`recover`]'s outcome is pinned for every input.

use vstd::prelude::*;
use crate::content::GeneratedContent;
use crate::decode::spec_content;
use crate::json_doc::{json_accepts, parses_as_json};
use crate::scan::{
    find_byte_from, find_pat, find_next_uq, find_spec, first_byte, last_byte, last_uq,
    last_unescaped_quote, next_uq, obj_end, push_repeat, repair_scan, repeat_byte, rfind_byte,
    run_repair_scan, scan_obj_end, trim_commas, trim_commas_spec, RepairOutcome,
};
use crate::text::{bytes_of, contains_sub, has_sub, match_at, push_bytes, subvec, trim, trim_spec};
use vstd::slice::slice_to_vec;
use vstd::string::StringSliceAdditionalSpecFns;

verus! {

/// Closing an unterminated string: cut back to the last unescaped quote;
/// failing that, cut back to the last comma and close the object; failing
/// both, leave the span alone.
pub open spec fn close_string_spec(base: Seq<u8>) -> Seq<u8> {
    match last_uq(base, base.len() - 1) {
        Some(q) => base.take(q + 1),
        None => match last_byte(base, base.len() - 1, 44) {
            Some(c) => base.take(c) + seq![125u8],
            None => base,
        },
    }
}

/// Cuts an unterminated string back to a safe boundary.
pub fn close_string(base: &[u8]) -> (r: Vec<u8>)
    ensures
        r@ == close_string_spec(base@),
{
    let n: usize = base.len();
    match last_unescaped_quote(base) {
        Some(q) => subvec(base, 0, q + 1),
        None => match rfind_byte(base, 44) {
            Some(c) => {
                let mut out = subvec(base, 0, c);
                out.push(125);
                proof {
                    assert(base@.take(c as int).push(125u8) =~= base@.take(c as int) + seq![125u8]);
                }
                out
            },
            None => slice_to_vec(base),
        },
    }
}

/// Injecting the required-but-missing fields before the object is closed:
/// trailing commas are dropped, a separating comma is added unless the
/// span ends in an opener, and each absent field gets an empty default.
pub open spec fn inject_fields_spec(j: Seq<u8>) -> Seq<u8> {
    let ne = !has_sub(j, "\"exercises\"".spec_bytes());
    let ncp = !has_sub(j, "\"common_patterns\"".spec_bytes());
    let nsg = !has_sub(j, "\"syntax_guide\"".spec_bytes());
    let jt = trim_commas_spec(j);
    if ne || ncp || nsg {
        let j1 = if jt.len() > 0 && (jt.last() == 123 || jt.last() == 91) {
            jt
        } else {
            jt + seq![44u8]
        };
        let j2 = if nsg {
            j1 + " \"syntax_guide\": \"\"".spec_bytes()
        } else {
            j1
        };
        let j3 = if ncp {
            j2 + ", \"common_patterns\": []".spec_bytes()
        } else {
            j2
        };
        if ne {
            j3 + ", \"exercises\": []".spec_bytes()
        } else {
            j3
        }
    } else {
        jt
    }
}

/// Injects the missing required fields into an unclosed object span.
pub fn inject_fields(j: &[u8]) -> (r: Vec<u8>)
    ensures
        r@ == inject_fields_spec(j@),
{
    let p_ex = bytes_of("\"exercises\"");
    let p_cp = bytes_of("\"common_patterns\"");
    let p_sg = bytes_of("\"syntax_guide\"");
    let ne: bool = !contains_sub(j, p_ex.as_slice());
    let ncp: bool = !contains_sub(j, p_cp.as_slice());
    let nsg: bool = !contains_sub(j, p_sg.as_slice());
    let mut out = trim_commas(j);
    if ne || ncp || nsg {
        let end_open: bool = out.len() > 0 && (out[out.len() - 1] == 123 || out[out.len() - 1]
            == 91);
        if !end_open {
            out.push(44);
            proof {
                assert(out@ =~= trim_commas_spec(j@) + seq![44u8]);
            }
        }
        if nsg {
            let f = bytes_of(" \"syntax_guide\": \"\"");
            push_bytes(&mut out, f.as_slice());
        }
        if ncp {
            let f = bytes_of(", \"common_patterns\": []");
            push_bytes(&mut out, f.as_slice());
        }
        if ne {
            let f = bytes_of(", \"exercises\": []");
            push_bytes(&mut out, f.as_slice());
        }
    }
    out
}

/// The last-resort rebuild: when a `"concept"` field with a complete
/// quoted value can be located, a minimal object is built around it with
/// empty defaults for every other field.
pub open spec fn minimal_rebuild_spec(j: Seq<u8>) -> Option<Seq<u8>> {
    let cpat = "\"concept\": \"".spec_bytes();
    match find_spec(j, cpat, 0) {
        None => None,
        Some(ci) => {
            let vi = ci + cpat.len();
            match next_uq(j, vi) {
                None => None,
                Some(q) => {
                    let m = seq![123u8] + j.subrange(ci, q + 1)
                        + ", \"step_by_step\": [], \"code_examples\": [], \"syntax_guide\": \"\", \"common_patterns\": [], \"exercises\": []}".spec_bytes();
                    if json_accepts(m) {
                        Some(m)
                    } else {
                        None
                    }
                },
            }
        },
    }
}

/// Attempts the last-resort minimal rebuild.
pub fn minimal_rebuild(j: &[u8]) -> (r: Option<Vec<u8>>)
    ensures
        r is Some <==> minimal_rebuild_spec(j@) is Some,
        r matches Some(v) ==> minimal_rebuild_spec(j@) == Some(v@),
{
    let n: usize = j.len();
    let cpat = bytes_of("\"concept\": \"");
    let ci: usize = match find_pat(j, cpat.as_slice(), 0) {
        Some(ci) => ci,
        None => {
            return None;
        },
    };
    let vi: usize = ci + cpat.len();
    let q: usize = match find_next_uq(j, vi) {
        Some(q) => q,
        None => {
            return None;
        },
    };
    let mut m: Vec<u8> = Vec::new();
    m.push(123);
    push_bytes(&mut m, &j[ci..q + 1]);
    let tail = bytes_of(
        ", \"step_by_step\": [], \"code_examples\": [], \"syntax_guide\": \"\", \"common_patterns\": [], \"exercises\": []}",
    );
    push_bytes(&mut m, tail.as_slice());
    proof {
        assert(m@ =~= seq![123u8] + j@.subrange(ci as int, q + 1) + tail@);
    }
    if parses_as_json(m.as_slice()) {
        Some(m)
    } else {
        None
    }
}

/// The structural repair of a candidate span that the parser rejected.
pub open spec fn spec_repair(text: Seq<u8>) -> Option<Seq<u8>> {
    match first_byte(text, 0, 123) {
        None => None,
        Some(p) => {
            let sc = repair_scan(text, p, p, 0, 0, false, false, p);
            match sc.complete {
                Some(done) => Some(done),
                None => {
                    if sc.brace > 0 || sc.bracket > 0 || sc.in_str {
                        let e = if sc.last_valid <= text.len() - 1 {
                            sc.last_valid
                        } else {
                            text.len() - 1
                        };
                        let base = text.subrange(p, e + 1);
                        let j1 = if sc.in_str {
                            close_string_spec(base)
                        } else {
                            base
                        };
                        let j2 = j1 + repeat_byte(
                            93,
                            if sc.bracket > 0 {
                                sc.bracket
                            } else {
                                0
                            },
                        );
                        let j3 = if sc.brace > 0 {
                            inject_fields_spec(j2) + repeat_byte(125, sc.brace)
                        } else {
                            j2
                        };
                        if json_accepts(j3) {
                            Some(j3)
                        } else {
                            minimal_rebuild_spec(j3)
                        }
                    } else {
                        None
                    }
                },
            }
        },
    }
}

/// Repairs an incomplete candidate span, returning a span the parser
/// accepts when the repair succeeds.
pub fn try_extract_incomplete(text: &[u8]) -> (r: Option<Vec<u8>>)
    ensures
        r is Some <==> spec_repair(text@) is Some,
        r matches Some(v) ==> spec_repair(text@) == Some(v@),
{
    let p: usize = match find_byte_from(text, 0, 123) {
        Some(p) => p,
        None => {
            return None;
        },
    };
    match run_repair_scan(text, p) {
        RepairOutcome::Complete(v) => Some(v),
        RepairOutcome::Partial { braces, brackets_open, brackets_closed, in_str, last_valid } => {
            let brackets: usize = if brackets_open > brackets_closed {
                brackets_open - brackets_closed
            } else {
                0
            };
            if braces > 0 || brackets > 0 || in_str {
                let n: usize = text.len();
                let e: usize = if last_valid <= n - 1 {
                    last_valid
                } else {
                    n - 1
                };
                let base: Vec<u8> = subvec(text, p, e + 1);
                let j1: Vec<u8> = if in_str {
                    close_string(base.as_slice())
                } else {
                    base
                };
                let mut j2: Vec<u8> = j1;
                push_repeat(&mut j2, 93, brackets);
                let j3: Vec<u8> = if braces > 0 {
                    let mut t = inject_fields(j2.as_slice());
                    push_repeat(&mut t, 125, braces);
                    t
                } else {
                    j2
                };
                if parses_as_json(j3.as_slice()) {
                    Some(j3)
                } else {
                    minimal_rebuild(j3.as_slice())
                }
            } else {
                None
            }
        },
    }
}

/// A successfully extracted span together with whether it parsed directly
/// (`true`) or only after repair (`false`).
pub open spec fn try_fence(s: Seq<u8>, fpat: Seq<u8>) -> Option<(Seq<u8>, bool)> {
    match find_spec(s, fpat, 0) {
        None => None,
        Some(st) => {
            let js = match first_byte(s, st + fpat.len(), 10) {
                Some(k) => k,
                None => st + fpat.len(),
            };
            match find_spec(s, "```".spec_bytes(), js) {
                Some(em) => {
                    let cand = trim_spec(s.subrange(js, em));
                    if json_accepts(cand) {
                        Some((cand, true))
                    } else {
                        match spec_repair(cand) {
                            Some(r) => Some((r, false)),
                            None => None,
                        }
                    }
                },
                None => {
                    let cand = trim_spec(s.skip(js));
                    match spec_repair(cand) {
                        Some(r) => Some((r, false)),
                        None => None,
                    }
                },
            }
        },
    }
}

/// The brace-scan strategy: from the first `{`, take the balanced span
/// (or the tail when the scan runs out), parse directly or repair.
pub open spec fn try_brace(s: Seq<u8>) -> Option<(Seq<u8>, bool)> {
    match first_byte(s, 0, 123) {
        None => None,
        Some(p) => {
            let cand = match obj_end(s, p, 0, false, false) {
                Some(e) => trim_spec(s.subrange(p, e)),
                None => trim_spec(s.skip(p)),
            };
            if json_accepts(cand) {
                Some((cand, true))
            } else {
                match spec_repair(cand) {
                    Some(r) => Some((r, false)),
                    None => None,
                }
            }
        },
    }
}

/// The whole extraction pipeline: JSON-tagged fence, then generic fence,
/// then brace scan; the first strategy that yields an accepted (possibly
/// repaired) span wins.
pub open spec fn spec_extract(s: Seq<u8>) -> Option<(Seq<u8>, bool)> {
    match try_fence(s, "```json".spec_bytes()) {
        Some(r) => Some(r),
        None => match try_fence(s, "```".spec_bytes()) {
            Some(r) => Some(r),
            None => try_brace(s),
        },
    }
}

/// One fence strategy: locate the fence, skip to the line after it, take
/// the span up to the closing fence (or the end of the text).
fn fence_attempt(text: &[u8], fpat: &[u8]) -> (r: Option<(Vec<u8>, bool)>)
    ensures
        r is None <==> try_fence(text@, fpat@) is None,
        r matches Some((v, d)) ==> try_fence(text@, fpat@) == Some((v@, d)),
{
    let n: usize = text.len();
    let st: usize = match find_pat(text, fpat, 0) {
        Some(st) => st,
        None => {
            return None;
        },
    };
    let after: usize = st + fpat.len();
    let js: usize = match find_byte_from(text, after, 10) {
        Some(k) => k,
        None => after,
    };
    let ticks = bytes_of("```");
    match find_pat(text, ticks.as_slice(), js) {
        Some(em) => {
            let cand: &[u8] = trim(&text[js..em]);
            if parses_as_json(cand) {
                Some((slice_to_vec(cand), true))
            } else {
                match try_extract_incomplete(cand) {
                    Some(r) => Some((r, false)),
                    None => None,
                }
            }
        },
        None => {
            let cand: &[u8] = trim(&text[js..n]);
            proof {
                assert(text@.subrange(js as int, n as int) =~= text@.skip(js as int));
            }
            match try_extract_incomplete(cand) {
                Some(r) => Some((r, false)),
                None => None,
            }
        },
    }
}

/// Extracts a JSON span from the raw text, trying the three strategies in
/// order.  The flag is `true` when the span parsed without repair.
pub fn extract_json(text: &[u8]) -> (r: Option<(Vec<u8>, bool)>)
    ensures
        r is None <==> spec_extract(text@) is None,
        r matches Some((v, d)) ==> spec_extract(text@) == Some((v@, d)),
{
    let fj = bytes_of("```json");
    match fence_attempt(text, fj.as_slice()) {
        Some(r) => {
            return Some(r);
        },
        None => {},
    }
    let ticks = bytes_of("```");
    match fence_attempt(text, ticks.as_slice()) {
        Some(r) => {
            return Some(r);
        },
        None => {},
    }
    let p: usize = match find_byte_from(text, 0, 123) {
        Some(p) => p,
        None => {
            return None;
        },
    };
    let cand: &[u8] = match scan_obj_end(text, p) {
        Some(e) => trim(&text[p..e]),
        None => {
            let n: usize = text.len();
            proof {
                assert(text@.subrange(p as int, n as int) =~= text@.skip(p as int));
            }
            trim(&text[p..n])
        },
    };
    if parses_as_json(cand) {
        Some((slice_to_vec(cand), true))
    } else {
        match try_extract_incomplete(cand) {
            Some(r) => Some((r, false)),
            None => None,
        }
    }
}

/// The outcome of recovery: a direct parse, a parse after structural
/// repair, or failure with the raw text handed back.
pub enum RecoveryResult {
    Parsed(GeneratedContent),
    Repaired(GeneratedContent),
    Failed(Vec<u8>),
}

/// Turns raw model output into structured content when any extraction
/// strategy yields a span that parses and decodes; otherwise hands the
/// raw text back as `Failed` for the synthesizer to absorb.
pub fn recover(raw: &[u8]) -> (r: RecoveryResult)
    ensures
        ({
            let ex = spec_extract(raw@);
            match r {
                RecoveryResult::Parsed(c) => ex matches Some((sp, d)) && d && spec_content(sp)
                    == Some(c@),
                RecoveryResult::Repaired(c) => ex matches Some((sp, d)) && !d && spec_content(sp)
                    == Some(c@),
                RecoveryResult::Failed(t) => t@ == raw@ && (ex is None || spec_content(
                    (ex->0).0,
                ) is None),
            }
        }),
{
    match extract_json(raw) {
        Some((span, direct)) => {
            match GeneratedContent::from_json(span.as_slice()) {
                Some(c) => {
                    if direct {
                        RecoveryResult::Parsed(c)
                    } else {
                        RecoveryResult::Repaired(c)
                    }
                },
                None => RecoveryResult::Failed(slice_to_vec(raw)),
            }
        },
        None => RecoveryResult::Failed(slice_to_vec(raw)),
    }
}

/// Round-trip law of recovery: a text that holds no fence markers, whose
/// first brace opens a balanced object per the scanner, and whose trimmed
/// span the parser accepts, is extracted by the direct strategy with no
/// repair — so `recover` returns `Parsed` with exactly the decoded
/// fields whenever that span decodes.
pub proof fn lemma_direct_round_trip(s: Seq<u8>, p: int, e: int)
    requires
        !has_sub(s, "```json".spec_bytes()),
        !has_sub(s, "```".spec_bytes()),
        first_byte(s, 0, 123) == Some(p),
        obj_end(s, p, 0, false, false) == Some(e),
        json_accepts(trim_spec(s.subrange(p, e))),
    ensures
        spec_extract(s) == Some((trim_spec(s.subrange(p, e)), true)),
{
    assert forall|j: int| 0 <= j implies !match_at(s, "```json".spec_bytes(), j) by {
        if match_at(s, "```json".spec_bytes(), j) {
            assert(has_sub(s, "```json".spec_bytes()));
        }
    }
    assert forall|j: int| 0 <= j implies !match_at(s, "```".spec_bytes(), j) by {
        if match_at(s, "```".spec_bytes(), j) {
            assert(has_sub(s, "```".spec_bytes()));
        }
    }
    lemma_find_spec_none_of(s, "```json".spec_bytes());
    lemma_find_spec_none_of(s, "```".spec_bytes());
    assert(try_fence(s, "```json".spec_bytes()) is None);
    assert(try_fence(s, "```".spec_bytes()) is None);
    assert(try_brace(s) == Some((trim_spec(s.subrange(p, e)), true)));
}

proof fn lemma_find_spec_none_of(s: Seq<u8>, pat: Seq<u8>)
    requires
        forall|j: int| 0 <= j ==> !match_at(s, pat, j),
    ensures
        find_spec(s, pat, 0) is None,
    decreases s.len() + 1,
{
    lemma_find_none_from(s, pat, 0);
}

proof fn lemma_find_none_from(s: Seq<u8>, pat: Seq<u8>, from: int)
    requires
        0 <= from,
        forall|j: int| 0 <= j ==> !match_at(s, pat, j),
    ensures
        find_spec(s, pat, from) is None,
    decreases s.len() - from + 1,
{
    if from + pat.len() <= s.len() {
        lemma_find_none_from(s, pat, from + 1);
    }
}

} // verus!
