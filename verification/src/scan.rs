//! The hand-rolled scanners of the recovery engine: pattern search with a
//! first-match spec, the brace/bracket/quote state machines (states:
//! default, in-string, escaped), and the small end-trimming helpers the
//! structural repair needs.  Every executable scanner is proved equal to a
//! tail-recursive spec function over the byte sequence.

use vstd::prelude::*;
use crate::json_doc::json_accepts;
use crate::text::{find_from, match_at, trim, trim_spec};
use vstd::slice::slice_to_vec;

verus! {

/// The first occurrence of `pat` in `s` at or after `from`.
pub open spec fn find_spec(s: Seq<u8>, pat: Seq<u8>, from: int) -> Option<int>
    decreases s.len() - from + 1,
{
    if from < 0 {
        None
    } else if from + pat.len() > s.len() {
        None
    } else if match_at(s, pat, from) {
        Some(from)
    } else {
        find_spec(s, pat, from + 1)
    }
}

proof fn lemma_find_spec_some(s: Seq<u8>, pat: Seq<u8>, from: int, i: int)
    requires
        0 <= from <= i,
        match_at(s, pat, i),
        forall|j: int| from <= j < i ==> !match_at(s, pat, j),
    ensures
        find_spec(s, pat, from) == Some(i),
    decreases i - from,
{
    if from < i {
        lemma_find_spec_some(s, pat, from + 1, i);
    }
}

proof fn lemma_find_spec_none(s: Seq<u8>, pat: Seq<u8>, from: int)
    requires
        0 <= from,
        forall|j: int| from <= j ==> !match_at(s, pat, j),
    ensures
        find_spec(s, pat, from) is None,
    decreases s.len() - from + 1,
{
    if from + pat.len() <= s.len() {
        lemma_find_spec_none(s, pat, from + 1);
    }
}

/// A found occurrence lies at or after the start of the search and fits
/// inside the text.
pub proof fn lemma_find_spec_ge(s: Seq<u8>, pat: Seq<u8>, from: int)
    ensures
        find_spec(s, pat, from) matches Some(i) ==> from <= i && i + pat.len() <= s.len(),
    decreases s.len() - from + 1,
{
    if from >= 0 && from + pat.len() <= s.len() && !match_at(s, pat, from) {
        lemma_find_spec_ge(s, pat, from + 1);
    }
}

/// First occurrence of `pat` at or after `from`, as `find_spec` denotes it.
pub fn find_pat(s: &[u8], pat: &[u8], from: usize) -> (r: Option<usize>)
    ensures
        match r {
            Some(i) => from <= i && find_spec(s@, pat@, from as int) == Some(i as int)
                && match_at(s@, pat@, i as int),
            None => find_spec(s@, pat@, from as int) is None,
        },
{
    match find_from(s, from, pat) {
        Some(i) => {
            proof {
                lemma_find_spec_some(s@, pat@, from as int, i as int);
            }
            Some(i)
        },
        None => {
            proof {
                lemma_find_spec_none(s@, pat@, from as int);
            }
            None
        },
    }
}

/// End position (one past the closing brace) of the object scan that the
/// direct-extraction strategy runs: depth counting over braces, honouring
/// strings and backslash escapes.
pub open spec fn obj_end(s: Seq<u8>, i: int, depth: int, in_str: bool, esc: bool) -> Option<int>
    decreases s.len() - i,
{
    if i < 0 || i >= s.len() {
        None
    } else {
        let b = s[i];
        if esc {
            obj_end(s, i + 1, depth, in_str, false)
        } else if b == 92 {
            obj_end(s, i + 1, depth, in_str, true)
        } else if b == 34 {
            obj_end(s, i + 1, depth, !in_str, false)
        } else if b == 123 && !in_str {
            obj_end(s, i + 1, depth + 1, in_str, false)
        } else if b == 125 && !in_str {
            if depth == 1 {
                Some(i + 1)
            } else {
                obj_end(s, i + 1, depth - 1, in_str, false)
            }
        } else {
            obj_end(s, i + 1, depth, in_str, false)
        }
    }
}

/// Runs the object scan from position `p` (exclusive of any earlier text).
pub fn scan_obj_end(s: &[u8], p: usize) -> (r: Option<usize>)
    requires
        p <= s@.len(),
    ensures
        match r {
            Some(e) => obj_end(s@, p as int, 0, false, false) == Some(e as int) && p < e <= s@.len(),
            None => obj_end(s@, p as int, 0, false, false) is None,
        },
{
    let n: usize = s.len();
    let mut i: usize = p;
    let mut opens: usize = 0;
    let mut closes: usize = 0;
    let mut in_str: bool = false;
    let mut esc: bool = false;
    while i < n
        invariant
            p <= i <= n,
            n == s@.len(),
            opens + closes <= i - p,
            obj_end(s@, p as int, 0, false, false) == obj_end(
                s@,
                i as int,
                opens - closes,
                in_str,
                esc,
            ),
        decreases n - i,
    {
        let b: u8 = s[i];
        if esc {
            esc = false;
        } else if b == 92 {
            esc = true;
        } else if b == 34 {
            in_str = !in_str;
        } else if b == 123 && !in_str {
            opens += 1;
        } else if b == 125 && !in_str {
            if opens == closes + 1 {
                return Some(i + 1);
            }
            closes += 1;
        }
        i += 1;
    }
    None
}

/// `s` with any run of trailing commas removed.
pub open spec fn trim_commas_spec(s: Seq<u8>) -> Seq<u8>
    decreases s.len(),
{
    if s.len() > 0 && s.last() == 44 {
        trim_commas_spec(s.drop_last())
    } else {
        s
    }
}

proof fn lemma_trim_commas(s: Seq<u8>, b: int)
    requires
        0 <= b <= s.len(),
        forall|k: int| b <= k < s.len() ==> s[k] == 44,
        b > 0 ==> s[b - 1] != 44,
    ensures
        trim_commas_spec(s) == s.subrange(0, b),
    decreases s.len() - b,
{
    if b == s.len() {
        assert(s.subrange(0, s.len() as int) =~= s);
    } else {
        lemma_trim_commas(s.drop_last(), b);
        assert(s.drop_last().subrange(0, b) =~= s.subrange(0, b));
    }
}

/// Removes trailing commas.
pub fn trim_commas(s: &[u8]) -> (r: Vec<u8>)
    ensures
        r@ == trim_commas_spec(s@),
{
    let n: usize = s.len();
    let mut b: usize = n;
    while b > 0 && s[b - 1] == 44
        invariant
            b <= n,
            n == s@.len(),
            forall|k: int| b <= k < n ==> s@[k] == 44,
        decreases b,
    {
        b -= 1;
    }
    proof {
        lemma_trim_commas(s@, b as int);
    }
    slice_to_vec(&s[0..b])
}

/// Whether position `j` of `s` holds a quote that is not preceded by a
/// backslash.
pub open spec fn uq_at(s: Seq<u8>, j: int) -> bool {
    0 <= j < s.len() && s[j] == 34 && (j == 0 || s[j - 1] != 92)
}

/// The last unescaped quote at or before position `i`.
pub open spec fn last_uq(s: Seq<u8>, i: int) -> Option<int>
    decreases i + 1,
{
    if i < 0 {
        None
    } else if uq_at(s, i) {
        Some(i)
    } else {
        last_uq(s, i - 1)
    }
}

proof fn lemma_last_uq(s: Seq<u8>, i: int, q: int)
    requires
        -1 <= q <= i,
        q >= 0 ==> uq_at(s, q),
        forall|j: int| q < j <= i ==> !uq_at(s, j),
    ensures
        last_uq(s, i) == if q >= 0 {
            Some(q)
        } else {
            None::<int>
        },
    decreases i - q,
{
    if i > q {
        lemma_last_uq(s, i - 1, q);
    }
}

/// The last unescaped quote anywhere in `s`.
pub fn last_unescaped_quote(s: &[u8]) -> (r: Option<usize>)
    ensures
        match r {
            Some(q) => last_uq(s@, s@.len() - 1) == Some(q as int) && q < s@.len(),
            None => last_uq(s@, s@.len() - 1) is None,
        },
{
    let n: usize = s.len();
    let mut k: usize = n;
    while k > 0
        invariant
            k <= n,
            n == s@.len(),
            forall|j: int| k <= j < n ==> !uq_at(s@, j),
        decreases k,
    {
        k -= 1;
        let is_q: bool = s[k] == 34 && (k == 0 || s[k - 1] != 92);
        if is_q {
            proof {
                lemma_last_uq(s@, n - 1, k as int);
            }
            return Some(k);
        }
    }
    proof {
        lemma_last_uq(s@, n - 1, -1);
    }
    None
}

/// The last occurrence of byte `b` at or before position `i`.
pub open spec fn last_byte(s: Seq<u8>, i: int, b: u8) -> Option<int>
    decreases i + 1,
{
    if i < 0 {
        None
    } else if 0 <= i < s.len() && s[i] == b {
        Some(i)
    } else {
        last_byte(s, i - 1, b)
    }
}

proof fn lemma_last_byte(s: Seq<u8>, i: int, b: u8, q: int)
    requires
        -1 <= q <= i,
        q >= 0 ==> 0 <= q < s.len() && s[q] == b,
        forall|j: int| q < j <= i ==> !(0 <= j < s.len() && s[j] == b),
    ensures
        last_byte(s, i, b) == if q >= 0 {
            Some(q)
        } else {
            None::<int>
        },
    decreases i - q,
{
    if i > q {
        lemma_last_byte(s, i - 1, b, q);
    }
}

/// The last occurrence of byte `b` anywhere in `s`.
pub fn rfind_byte(s: &[u8], b: u8) -> (r: Option<usize>)
    ensures
        match r {
            Some(q) => last_byte(s@, s@.len() - 1, b) == Some(q as int) && q < s@.len(),
            None => last_byte(s@, s@.len() - 1, b) is None,
        },
{
    let n: usize = s.len();
    let mut k: usize = n;
    while k > 0
        invariant
            k <= n,
            n == s@.len(),
            forall|j: int| k <= j < n ==> s@[j] != b,
        decreases k,
    {
        k -= 1;
        if s[k] == b {
            proof {
                lemma_last_byte(s@, n - 1, b, k as int);
            }
            return Some(k);
        }
    }
    proof {
        lemma_last_byte(s@, n - 1, b, -1);
    }
    None
}

/// The first unescaped quote at or after position `i` (positions with an
/// escaping backslash just before them are skipped).
pub open spec fn next_uq(s: Seq<u8>, i: int) -> Option<int>
    decreases s.len() - i,
{
    if i < 0 || i >= s.len() {
        None
    } else if s[i] == 34 && (i == 0 || s[i - 1] != 92) {
        Some(i)
    } else {
        next_uq(s, i + 1)
    }
}

/// The first unescaped quote at or after `from`.
pub fn find_next_uq(s: &[u8], from: usize) -> (r: Option<usize>)
    ensures
        match r {
            Some(q) => next_uq(s@, from as int) == Some(q as int) && from <= q < s@.len(),
            None => next_uq(s@, from as int) is None,
        },
{
    let n: usize = s.len();
    let mut i: usize = from;
    if i >= n {
        return None;
    }
    while i < n
        invariant
            from <= i,
            i <= n,
            n == s@.len(),
            next_uq(s@, from as int) == next_uq(s@, i as int),
        decreases n - i,
    {
        let is_q: bool = s[i] == 34 && (i == 0 || s[i - 1] != 92);
        if is_q {
            return Some(i);
        }
        i += 1;
    }
    None
}

/// The first occurrence of byte `b` at or after position `i`.
pub open spec fn first_byte(s: Seq<u8>, i: int, b: u8) -> Option<int>
    decreases s.len() - i,
{
    if i < 0 || i >= s.len() {
        None
    } else if s[i] == b {
        Some(i)
    } else {
        first_byte(s, i + 1, b)
    }
}

/// The first occurrence of byte `b` at or after `from`.
pub fn find_byte_from(s: &[u8], from: usize, b: u8) -> (r: Option<usize>)
    ensures
        match r {
            Some(q) => first_byte(s@, from as int, b) == Some(q as int) && from <= q < s@.len()
                && s@[q as int] == b,
            None => first_byte(s@, from as int, b) is None,
        },
{
    let n: usize = s.len();
    let mut i: usize = from;
    if i >= n {
        return None;
    }
    while i < n
        invariant
            from <= i,
            i <= n,
            n == s@.len(),
            first_byte(s@, from as int, b) == first_byte(s@, i as int, b),
        decreases n - i,
    {
        if s[i] == b {
            return Some(i);
        }
        i += 1;
    }
    None
}

/// `n` copies of byte `b`.
pub open spec fn repeat_byte(b: u8, n: int) -> Seq<u8>
    decreases n,
{
    if n <= 0 {
        Seq::<u8>::empty()
    } else {
        repeat_byte(b, n - 1) + seq![b]
    }
}

/// Appends `n` copies of `b` to `out`.
pub fn push_repeat(out: &mut Vec<u8>, b: u8, n: usize)
    ensures
        final(out)@ == old(out)@ + repeat_byte(b, n as int),
{
    let mut k: usize = 0;
    proof {
        assert(out@ + repeat_byte(b, 0) =~= out@);
    }
    while k < n
        invariant
            k <= n,
            out@ == old(out)@ + repeat_byte(b, k as int),
        decreases n - k,
    {
        out.push(b);
        proof {
            assert(old(out)@ + repeat_byte(b, k + 1) =~= (old(out)@ + repeat_byte(b, k as int)).push(
                b,
            ));
        }
        k += 1;
    }
}

/// The outcome of the repair scan: either a complete sub-object that the
/// parser accepts (found on the way), or the structural state at the end
/// of the text.
pub ghost struct RepairScanV {
    pub complete: Option<Seq<u8>>,
    pub brace: int,
    pub bracket: int,
    pub in_str: bool,
    pub last_valid: int,
}

/// The repair scan from position `i`, with the candidate span starting at
/// `p`: tracks brace and bracket depth, string state, escapes and the last
/// position known to be safe to cut at.  When a closing brace balances the
/// braces, the span up to it is handed to the parser; if accepted the scan
/// stops there.
pub open spec fn repair_scan(
    s: Seq<u8>,
    p: int,
    i: int,
    brace: int,
    bracket: int,
    in_str: bool,
    esc: bool,
    lv: int,
) -> RepairScanV
    decreases s.len() - i,
{
    if i < 0 || i >= s.len() {
        RepairScanV { complete: None, brace, bracket, in_str, last_valid: lv }
    } else {
        let b = s[i];
        if esc {
            repair_scan(s, p, i + 1, brace, bracket, in_str, false, lv)
        } else if b == 92 {
            repair_scan(s, p, i + 1, brace, bracket, in_str, true, lv)
        } else if b == 34 {
            repair_scan(s, p, i + 1, brace, bracket, !in_str, false, i + 1)
        } else if b == 123 && !in_str {
            repair_scan(s, p, i + 1, brace + 1, bracket, in_str, false, i)
        } else if b == 125 && !in_str {
            if brace == 1 && json_accepts(trim_spec(s.subrange(p, i + 1))) {
                RepairScanV {
                    complete: Some(trim_spec(s.subrange(p, i + 1))),
                    brace: 0,
                    bracket,
                    in_str,
                    last_valid: i + 1,
                }
            } else {
                repair_scan(s, p, i + 1, brace - 1, bracket, in_str, false, i + 1)
            }
        } else if b == 91 && !in_str {
            repair_scan(s, p, i + 1, brace, bracket + 1, in_str, false, i)
        } else if b == 93 && !in_str {
            repair_scan(s, p, i + 1, brace, bracket - 1, in_str, false, i + 1)
        } else if !in_str {
            repair_scan(s, p, i + 1, brace, bracket, in_str, false, lv)
        } else {
            repair_scan(s, p, i + 1, brace, bracket, in_str, false, i + 1)
        }
    }
}

/// The executable form of the repair scan's outcome.
pub enum RepairOutcome {
    Complete(Vec<u8>),
    Partial { braces: usize, brackets_open: usize, brackets_closed: usize, in_str: bool, last_valid: usize },
}

/// Runs the repair scan over `s` from position `p`.  In the `Partial`
/// outcome, `braces` is the number of unclosed objects (zero when braces
/// balanced or over-closed), and the bracket counts are handed back
/// separately because over-closed brackets must not close anything.
pub fn run_repair_scan(s: &[u8], p: usize) -> (r: RepairOutcome)
    requires
        p < s@.len(),
    ensures
        ({
            let sc = repair_scan(s@, p as int, p as int, 0, 0, false, false, p as int);
            match r {
                RepairOutcome::Complete(v) => sc.complete == Some(v@),
                RepairOutcome::Partial { braces, brackets_open, brackets_closed, in_str, last_valid } => {
                    &&& sc.complete is None
                    &&& braces as int == if sc.brace > 0 {
                        sc.brace
                    } else {
                        0
                    }
                    &&& brackets_open - brackets_closed == sc.bracket
                    &&& in_str == sc.in_str
                    &&& last_valid as int == sc.last_valid
                    &&& p <= last_valid
                },
            }
        }),
{
    let n: usize = s.len();
    let mut i: usize = p;
    let mut b_open: usize = 0;
    let mut b_close: usize = 0;
    let mut k_open: usize = 0;
    let mut k_close: usize = 0;
    let mut in_str: bool = false;
    let mut esc: bool = false;
    let mut lv: usize = p;
    while i < n
        invariant
            p <= i <= n,
            n == s@.len(),
            b_open + b_close + k_open + k_close <= i - p,
            p <= lv <= n,
            repair_scan(s@, p as int, p as int, 0, 0, false, false, p as int) == repair_scan(
                s@,
                p as int,
                i as int,
                b_open - b_close,
                k_open - k_close,
                in_str,
                esc,
                lv as int,
            ),
        decreases n - i,
    {
        let b: u8 = s[i];
        if esc {
            esc = false;
        } else if b == 92 {
            esc = true;
        } else if b == 34 {
            in_str = !in_str;
            lv = i + 1;
        } else if b == 123 && !in_str {
            b_open += 1;
            lv = i;
        } else if b == 125 && !in_str {
            if b_open == b_close + 1 {
                let cand: &[u8] = trim(&s[p..i + 1]);
                if crate::json_doc::parses_as_json(cand) {
                    return RepairOutcome::Complete(slice_to_vec(cand));
                }
            }
            b_close += 1;
            lv = i + 1;
        } else if b == 91 && !in_str {
            k_open += 1;
            lv = i;
        } else if b == 93 && !in_str {
            k_close += 1;
            lv = i + 1;
        } else if in_str {
            lv = i + 1;
        }
        i += 1;
    }
    let braces: usize = if b_open > b_close {
        b_open - b_close
    } else {
        0
    };
    RepairOutcome::Partial {
        braces,
        brackets_open: k_open,
        brackets_closed: k_close,
        in_str,
        last_valid: lv,
    }
}

} // verus!
