//! Locating a complete JSON object in free text by balancing braces.
//!
//! Model output often wraps a JSON tool call in prose.  The scanner walks the
//! text once, tracking brace depth outside string literals and backslash
//! escapes inside them, and stops at the first closing brace that brings the
//! depth back to zero.
use vstd::prelude::*;

verus! {

/// Scanner state: brace depth, inside a string literal, next character escaped.
pub type ScanState = (int, bool, bool);

/// The state before any character is read.
pub open spec fn scan_start() -> ScanState {
    (0, false, false)
}

/// The state after reading `c` in state `st`.
pub open spec fn scan_step(st: ScanState, c: char) -> ScanState {
    let (depth, in_string, escape) = st;
    if escape {
        (depth, in_string, false)
    } else if c == '\\' && in_string {
        (depth, in_string, true)
    } else if c == '"' {
        (depth, !in_string, false)
    } else if c == '{' && !in_string {
        (depth + 1, in_string, false)
    } else if c == '}' && !in_string {
        (depth - 1, in_string, false)
    } else {
        st
    }
}

/// The state after reading the first `n` characters of `s`.
pub open spec fn scan_state(s: Seq<char>, n: nat) -> ScanState
    recommends
        n <= s.len(),
    decreases n,
{
    if n == 0 {
        scan_start()
    } else {
        scan_step(scan_state(s, (n - 1) as nat), s[n - 1])
    }
}

/// Reading `c` in state `st` is a closing brace that brings the depth to zero.
pub open spec fn closes_object(st: ScanState, c: char) -> bool {
    let (depth, in_string, escape) = st;
    !escape && !in_string && c == '}' && depth == 1
}

/// Character `k` of `s` closes the outermost object.
pub open spec fn closes_at(s: Seq<char>, k: int) -> bool {
    0 <= k < s.len() && closes_object(scan_state(s, k as nat), s[k])
}

/// The first position at or after `k` that closes the outermost object.
pub open spec fn first_close_from(s: Seq<char>, k: int) -> Option<int>
    decreases s.len() - k,
{
    if k < 0 || k >= s.len() {
        None
    } else if closes_at(s, k) {
        Some(k)
    } else {
        first_close_from(s, k + 1)
    }
}

/// The text of the first complete JSON object at the start of `s`: the
/// prefix ending at the first brace that closes it, if there is one.
pub open spec fn json_object_prefix(s: Seq<char>) -> Option<Seq<char>> {
    match first_close_from(s, 0) {
        Some(k) => Some(s.take(k + 1)),
        None => None,
    }
}

/// The first closing position found from `k` closes the object, and no
/// position between `k` and it does.
pub proof fn lemma_first_close_from(s: Seq<char>, k: int)
    requires
        0 <= k,
    ensures
        first_close_from(s, k) matches Some(e) ==> (k <= e && closes_at(s, e) && forall|j: int|
            k <= j < e ==> !closes_at(s, j)),
        first_close_from(s, k) is None ==> forall|j: int| k <= j ==> !closes_at(s, j),
    decreases s.len() - k,
{
    if k < s.len() && !closes_at(s, k) {
        lemma_first_close_from(s, k + 1);
    }
}

/// The scanner only looks back: a longer text has the same states on a
/// common prefix.
pub proof fn lemma_scan_state_prefix(s: Seq<char>, t: Seq<char>, n: nat)
    requires
        n <= s.len(),
        n <= t.len(),
        s.take(n as int) == t.take(n as int),
    ensures
        scan_state(s, n) == scan_state(t, n),
    decreases n,
{
    if n > 0 {
        assert(s.take(n - 1) == s.take(n as int).take(n - 1));
        assert(t.take(n - 1) == t.take(n as int).take(n - 1));
        assert(s[n - 1] == s.take(n as int)[n - 1]);
        assert(t[n - 1] == t.take(n as int)[n - 1]);
        lemma_scan_state_prefix(s, t, (n - 1) as nat);
    }
}

/// Scans `cs[from..]` for the first complete JSON object and returns the
/// position just past its closing brace.
pub fn scan_object_end(cs: &Vec<char>, from: usize) -> (r: Option<usize>)
    requires
        from <= cs.len(),
    ensures
        ({
            let s = cs@.subrange(from as int, cs.len() as int);
            match r {
                Some(e) => from < e <= cs.len() && first_close_from(s, 0) == Some(e - from - 1),
                None => first_close_from(s, 0) is None,
            }
        }),
{
    let ghost s = cs@.subrange(from as int, cs.len() as int);
    let mut depth: i128 = 0;
    let mut in_string = false;
    let mut escape = false;
    let mut i = from;
    while i < cs.len()
        invariant
            from <= i <= cs.len(),
            s == cs@.subrange(from as int, cs.len() as int),
            scan_state(s, (i - from) as nat) == (depth as int, in_string, escape),
            -((i - from) as int) <= depth <= (i - from) as int,
            first_close_from(s, 0) == first_close_from(s, (i - from) as int),
        decreases cs.len() - i,
    {
        let c = cs[i];
        let ghost k = (i - from) as int;
        assert(s[k] == c);
        if escape {
            escape = false;
        } else if c == '\\' && in_string {
            escape = true;
        } else if c == '"' {
            in_string = !in_string;
        } else if c == '{' && !in_string {
            depth = depth + 1;
        } else if c == '}' && !in_string {
            if depth == 1 {
                assert(closes_at(s, k));
                return Some(i + 1);
            }
            depth = depth - 1;
        }
        assert(!closes_at(s, k));
        i = i + 1;
    }
    None
}

} // verus!
