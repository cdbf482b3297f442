//! Character-level operations on strings: matching, prefixes, removal of matches.

use vstd::prelude::*;

verus! {

/// `s` with every match of `pat` removed, the matches taken from the left and
/// never overlapping (what `str::replace(pat, "")` computes). An empty pattern
/// removes nothing.
pub open spec fn without_matches(s: Seq<char>, pat: Seq<char>) -> Seq<char>
    decreases s.len(),
{
    if pat.len() == 0 || s.len() < pat.len() {
        s
    } else if s.take(pat.len() as int) == pat {
        without_matches(s.skip(pat.len() as int), pat)
    } else {
        seq![s[0]] + without_matches(s.skip(1), pat)
    }
}

/// Appends one character to a `String` with `String::push`.
///
/// Trusted: afterwards the string holds its old characters followed by `c`.
#[verifier::external_body]
fn push_char(s: &mut String, c: char)
    ensures
        final(s)@ == old(s)@.push(c),
{
    s.push(c);
}

/// Copies the characters of a string slice into a vector, in order.
pub fn chars_of(s: &str) -> (out: Vec<char>)
    ensures
        out@ == s@,
{
    let mut out: Vec<char> = Vec::new();
    for c in it: s.chars()
        invariant
            out@ == it.seq().take(it.index() as int),
    {
        out.push(c);
    }
    out
}

/// Whether `pat` matches `s` at position `at`.
pub fn matches_at(s: &Vec<char>, at: usize, pat: &Vec<char>) -> (res: bool)
    requires
        at + pat.len() <= s.len(),
    ensures
        res == (s@.subrange(at as int, at + pat.len()) == pat@),
{
    let mut k: usize = 0;
    while k < pat.len()
        invariant
            k <= pat.len(),
            at + pat.len() <= s.len(),
            forall|j: int| 0 <= j < k ==> s@[at + j] == pat@[j],
        decreases pat.len() - k,
    {
        if s[at + k] != pat[k] {
            assert(s@.subrange(at as int, at + pat.len())[k as int] != pat@[k as int]);
            return false;
        }
        k = k + 1;
    }
    assert(s@.subrange(at as int, at + pat.len()) =~= pat@);
    true
}

/// The step of `without_matches` at a position where `pat` does not match.
proof fn lemma_without_matches_keep(s: Seq<char>, pat: Seq<char>, i: int)
    requires
        0 <= i < s.len(),
        pat.len() == 0 || s.len() - i < pat.len() || s.subrange(i, i + pat.len()) != pat,
    ensures
        without_matches(s.skip(i), pat) == seq![s[i]] + without_matches(s.skip(i + 1), pat),
{
    let r = s.skip(i);
    assert(r.skip(1) =~= s.skip(i + 1));
    if pat.len() == 0 || r.len() < pat.len() {
        assert(r =~= seq![s[i]] + s.skip(i + 1));
    } else {
        assert(r.take(pat.len() as int) =~= s.subrange(i, i + pat.len()));
    }
}

/// The step of `without_matches` at a position where `pat` matches.
proof fn lemma_without_matches_drop(s: Seq<char>, pat: Seq<char>, i: int)
    requires
        0 <= i,
        pat.len() > 0,
        i + pat.len() <= s.len(),
        s.subrange(i, i + pat.len()) == pat,
    ensures
        without_matches(s.skip(i), pat) == without_matches(s.skip(i + pat.len()), pat),
{
    let r = s.skip(i);
    assert(r.take(pat.len() as int) =~= s.subrange(i, i + pat.len()));
    assert(r.skip(pat.len() as int) =~= s.skip(i + pat.len()));
}

/// `s` with every match of `pat` removed, as `str::replace(pat, "")` does.
pub fn remove_matches(s: &str, pat: &str) -> (res: String)
    ensures
        res@ == without_matches(s@, pat@),
{
    let cs = chars_of(s);
    let ps = chars_of(pat);
    let n = cs.len();
    let m = ps.len();
    let mut out = String::new();
    let mut i: usize = 0;
    assert(cs@.skip(0) =~= cs@);
    while i < n
        invariant
            n == cs.len(),
            m == ps.len(),
            cs@ == s@,
            ps@ == pat@,
            i <= n,
            without_matches(s@, pat@) == out@ + without_matches(s@.skip(i as int), pat@),
        decreases n - i,
    {
        if m > 0 && m <= n - i && matches_at(&cs, i, &ps) {
            proof {
                lemma_without_matches_drop(s@, pat@, i as int);
            }
            i = i + m;
        } else {
            proof {
                lemma_without_matches_keep(s@, pat@, i as int);
            }
            push_char(&mut out, cs[i]);
            i = i + 1;
        }
    }
    assert(s@.skip(n as int) =~= Seq::<char>::empty());
    out
}

/// Whether `s` starts with `prefix` (`str::starts_with`).
pub fn starts_with(s: &str, prefix: &str) -> (res: bool)
    ensures
        res == prefix@.is_prefix_of(s@),
{
    let cs = chars_of(s);
    let ps = chars_of(prefix);
    if ps.len() > cs.len() {
        return false;
    }
    matches_at(&cs, 0, &ps)
}

/// Whether two strings hold the same characters.
pub fn str_eq(a: &str, b: &str) -> (res: bool)
    ensures
        res == (a@ == b@),
{
    let ca = chars_of(a);
    let cb = chars_of(b);
    if ca.len() != cb.len() {
        return false;
    }
    let r = matches_at(&ca, 0, &cb);
    assert(ca@.subrange(0, ca.len() as int) =~= ca@);
    r
}

/// The characters of `s` after the first `n` (`&s[k..]`, for `k` the byte
/// offset of character `n`, copied).
pub fn skip_chars(s: &str, n: usize) -> (res: String)
    requires
        n <= s@.len(),
    ensures
        res@ == s@.skip(n as int),
{
    let cs = chars_of(s);
    let mut out = String::new();
    let mut i = n;
    while i < cs.len()
        invariant
            cs@ == s@,
            n <= i <= cs.len(),
            out@ == s@.subrange(n as int, i as int),
        decreases cs.len() - i,
    {
        push_char(&mut out, cs[i]);
        assert(s@.subrange(n as int, i + 1) =~= s@.subrange(n as int, i as int).push(cs@[i as int]));
        i = i + 1;
    }
    assert(s@.subrange(n as int, cs.len() as int) =~= s@.skip(n as int));
    out
}

/// `pat` occurs somewhere in `s`.
pub open spec fn occurs_in(pat: Seq<char>, s: Seq<char>) -> bool {
    exists|i: int| 0 <= i && i + pat.len() <= s.len() && #[trigger] s.subrange(i, i + pat.len()) == pat
}

/// A string in which `pat` does not occur is left as it is.
pub proof fn lemma_without_matches_no_occurrence(s: Seq<char>, pat: Seq<char>)
    requires
        !occurs_in(pat, s),
    ensures
        without_matches(s, pat) == s,
    decreases s.len(),
{
    if pat.len() == 0 || s.len() < pat.len() {
    } else {
        let z: int = 0;
        assert(s.subrange(z, z + pat.len()) != pat);
        assert(s.take(pat.len() as int) =~= s.subrange(z, z + pat.len()));
        let t = s.skip(1);
        assert forall|i: int| 0 <= i && i + pat.len() <= t.len() implies #[trigger] t.subrange(
            i,
            i + pat.len(),
        ) != pat by {
            assert(t.subrange(i, i + pat.len()) =~= s.subrange(i + 1, i + 1 + pat.len()));
        }
        lemma_without_matches_no_occurrence(t, pat);
        assert(s =~= seq![s[0]] + t);
    }
}

/// A match at the start is removed, and the rest is treated on its own.
pub proof fn lemma_without_matches_leading(s: Seq<char>, pat: Seq<char>)
    requires
        pat.len() > 0,
    ensures
        without_matches(pat + s, pat) == without_matches(s, pat),
{
    let p = pat + s;
    assert(p.take(pat.len() as int) =~= pat);
    assert(p.skip(pat.len() as int) =~= s);
}

/// Removing matches never lengthens a string, and shortens it by whole
/// matches only.
pub proof fn lemma_without_matches_length(s: Seq<char>, pat: Seq<char>)
    ensures
        without_matches(s, pat).len() <= s.len(),
        pat.len() > 0 ==> (s.len() - without_matches(s, pat).len()) % (pat.len() as int) == 0,
    decreases s.len(),
{
    if pat.len() == 0 || s.len() < pat.len() {
    } else if s.take(pat.len() as int) == pat {
        lemma_without_matches_length(s.skip(pat.len() as int), pat);
        let r = without_matches(s.skip(pat.len() as int), pat);
        let d = s.skip(pat.len() as int).len() - r.len();
        assert(s.len() - r.len() == d + pat.len());
        assert((d + pat.len()) % (pat.len() as int) == d % (pat.len() as int)) by (nonlinear_arith)
            requires pat.len() > 0;
    } else {
        lemma_without_matches_length(s.skip(1), pat);
    }
}

} // verus!
