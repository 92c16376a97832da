//! Scanning a transcript for the textual markers that signal failure.
use vstd::prelude::*;

verus! {

/// `pat` occurs in `t` starting at position `i`.
pub open spec fn occurs_at(t: Seq<char>, i: int, pat: Seq<char>) -> bool {
    &&& 0 <= i
    &&& i + pat.len() <= t.len()
    &&& t.subrange(i, i + pat.len()) == pat
}

/// Position `i` is the first position of a line of `t`.
pub open spec fn starts_line(t: Seq<char>, i: int) -> bool {
    i == 0 || (0 < i <= t.len() && t[i - 1] == '\n')
}

/// The prefix that marks a line reporting an error: `Error`.
pub open spec fn error_prefix() -> Seq<char> {
    seq!['E', 'r', 'r', 'o', 'r']
}

/// The marker that a failed test assertion prints: `FAIL`.
pub open spec fn fail_marker() -> Seq<char> {
    seq!['F', 'A', 'I', 'L']
}

/// Some line of `t` begins with `Error` (case-sensitive, no leading
/// whitespace allowed).
pub open spec fn error_line_in(t: Seq<char>) -> bool {
    exists|i: int| starts_line(t, i) && #[trigger] occurs_at(t, i, error_prefix())
}

/// `FAIL` occurs anywhere in `t`.
pub open spec fn fail_in(t: Seq<char>) -> bool {
    exists|i: int| #[trigger] occurs_at(t, i, fail_marker())
}

/// Whether `pat` occurs in `t` at position `i`.
fn occurs_at_exec(t: &Vec<char>, i: usize, pat: &Vec<char>) -> (r: bool)
    ensures
        r == occurs_at(t@, i as int, pat@),
{
    if pat.len() > t.len() || i > t.len() - pat.len() {
        return false;
    }
    let mut k: usize = 0;
    while k < pat.len()
        invariant
            i + pat.len() <= t.len(),
            k <= pat.len(),
            forall|j: int| 0 <= j < k ==> t@[i + j] == pat@[j],
        decreases pat.len() - k,
    {
        if t[i + k] != pat[k] {
            assert(t@.subrange(i as int, i + pat.len())[k as int] != pat@[k as int]);
            return false;
        }
        k = k + 1;
    }
    assert(t@.subrange(i as int, i + pat.len()) =~= pat@);
    true
}

/// Whether some line of `s` begins with `Error`.
pub fn has_error_line(s: &str) -> (r: bool)
    ensures
        r == error_line_in(s@),
{
    let t = chars_of(s);
    let pat: Vec<char> = vec!['E', 'r', 'r', 'o', 'r'];
    assert(pat@ =~= error_prefix());
    let mut i: usize = 0;
    while i < t.len()
        invariant
            t@ == s@,
            pat@ == error_prefix(),
            i <= t.len(),
            forall|j: int| 0 <= j < i ==> !(starts_line(t@, j) && occurs_at(t@, j, error_prefix())),
        decreases t.len() - i,
    {
        if (i == 0 || t[i - 1] == '\n') && occurs_at_exec(&t, i, &pat) {
            return true;
        }
        i = i + 1;
    }
    assert forall|j: int| !(starts_line(t@, j) && #[trigger] occurs_at(t@, j, error_prefix())) by {
        if 0 <= j < i {
        }
    }
    false
}

/// Whether `FAIL` occurs anywhere in `s`.
pub fn contains_fail(s: &str) -> (r: bool)
    ensures
        r == fail_in(s@),
{
    let t = chars_of(s);
    let pat: Vec<char> = vec!['F', 'A', 'I', 'L'];
    assert(pat@ =~= fail_marker());
    let mut i: usize = 0;
    while i < t.len()
        invariant
            t@ == s@,
            pat@ == fail_marker(),
            i <= t.len(),
            forall|j: int| 0 <= j < i ==> !occurs_at(t@, j, fail_marker()),
        decreases t.len() - i,
    {
        if occurs_at_exec(&t, i, &pat) {
            return true;
        }
        i = i + 1;
    }
    assert forall|j: int| !#[trigger] occurs_at(t@, j, fail_marker()) by {
        if 0 <= j < i {
        }
    }
    false
}

/// Collects the characters of `s`.
pub fn chars_of(s: &str) -> (r: Vec<char>)
    ensures
        r@ == s@,
{
    let mut r: Vec<char> = Vec::new();
    for c in it: s.chars()
        invariant
            r@ == it.seq().take(it.index() as int),
    {
        r.push(c);
    }
    r
}

} // verus!
