//! Text helpers: comparison and replacement over the characters of a string.
use vstd::prelude::*;
use vstd::string::*;

verus! {

/// The characters of `s`, in order.
pub fn chars_of(s: &str) -> (v: Vec<char>)
    ensures
        v@ == s@,
{
    let mut v: Vec<char> = Vec::new();
    for c in it: s.chars()
        invariant
            it.seq() == s@,
            v@ == it.seq().take(it.index()),
    {
        v.push(c);
    }
    v
}

/// Whether `pattern` stands in `text` at position `at`.
pub open spec fn occurs_at(text: Seq<char>, at: int, pattern: Seq<char>) -> bool {
    &&& 0 <= at
    &&& at + pattern.len() <= text.len()
    &&& text.subrange(at, at + pattern.len()) == pattern
}

/// Whether `pattern` stands somewhere in `text`.
pub open spec fn occurs_in(text: Seq<char>, pattern: Seq<char>) -> bool {
    exists|at: int| occurs_at(text, at, pattern)
}

/// `text` with every occurrence of `pattern` replaced by `with`, scanning
/// from the left and never overlapping two occurrences. An empty pattern
/// occurs nowhere.
pub open spec fn replaced(text: Seq<char>, pattern: Seq<char>, with: Seq<char>) -> Seq<char>
    decreases text.len(),
{
    if pattern.len() == 0 || text.len() < pattern.len() {
        text
    } else if text.take(pattern.len() as int) == pattern {
        with + replaced(text.skip(pattern.len() as int), pattern, with)
    } else {
        text.take(1) + replaced(text.skip(1), pattern, with)
    }
}

/// A text in which the pattern does not occur is left as it is.
pub proof fn lemma_replaced_without_occurrence(
    text: Seq<char>,
    pattern: Seq<char>,
    with: Seq<char>,
)
    requires
        !occurs_in(text, pattern),
    ensures
        replaced(text, pattern, with) == text,
    decreases text.len(),
{
    if pattern.len() == 0 || text.len() < pattern.len() {
    } else {
        let m = pattern.len() as int;
        if text.take(m) == pattern {
            assert(text.subrange(0, 0 + m) == text.take(m));
            assert(occurs_at(text, 0, pattern));
        } else {
            let rest = text.skip(1);
            assert forall|at: int| !occurs_at(rest, at, pattern) by {
                if occurs_at(rest, at, pattern) {
                    assert(text.subrange(at + 1, at + 1 + m) == rest.subrange(at, at + m));
                    assert(occurs_at(text, at + 1, pattern));
                }
            }
            lemma_replaced_without_occurrence(rest, pattern, with);
            assert(text.take(1) + rest == text);
        }
    }
}

/// Whether two strings hold the same characters.
pub fn str_eq(a: &str, b: &str) -> (r: bool)
    ensures
        r == (a@ == b@),
{
    let x = chars_of(a);
    let y = chars_of(b);
    if x.len() != y.len() {
        return false;
    }
    let mut i: usize = 0;
    while i < x.len()
        invariant
            i <= x.len(),
            x.len() == y.len(),
            x@ == a@,
            y@ == b@,
            x@.take(i as int) == y@.take(i as int),
        decreases x.len() - i,
    {
        if x[i] != y[i] {
            return false;
        }
        assert(x@.take(i + 1) == x@.take(i as int).push(x@[i as int]));
        assert(y@.take(i + 1) == y@.take(i as int).push(y@[i as int]));
        i += 1;
    }
    assert(x@ == x@.take(x.len() as int));
    assert(y@ == y@.take(y.len() as int));
    true
}

/// Whether `pattern` stands in `text` at position `at`.
pub(crate) fn matches_at(text: &Vec<char>, at: usize, pattern: &Vec<char>) -> (r: bool)
    requires
        at <= text.len(),
    ensures
        r == occurs_at(text@, at as int, pattern@),
{
    let m = pattern.len();
    if text.len() - at < m {
        return false;
    }
    let mut j: usize = 0;
    while j < m
        invariant
            j <= m,
            m == pattern.len(),
            at + m <= text.len(),
            text@.subrange(at as int, at + j) == pattern@.take(j as int),
        decreases m - j,
    {
        if text[at + j] != pattern[j] {
            assert(text@.subrange(at as int, at + m)[j as int] != pattern@[j as int]);
            return false;
        }
        assert(text@.subrange(at as int, at + j + 1) == text@.subrange(at as int, at + j).push(
            text@[at + j],
        ));
        assert(pattern@.take(j + 1) == pattern@.take(j as int).push(pattern@[j as int]));
        j += 1;
    }
    assert(pattern@.take(m as int) == pattern@);
    true
}

/// Replaces every occurrence of `pattern` in `text` by `with`, from the left,
/// without overlap. With an empty pattern the text comes back unchanged, and
/// so does a text in which the pattern does not occur.
pub fn replace_all(text: &str, pattern: &str, with: &str) -> (r: String)
    ensures
        r@ == replaced(text@, pattern@, with@),
        !occurs_in(text@, pattern@) ==> r@ == text@,
{
    proof {
        if !occurs_in(text@, pattern@) {
            lemma_replaced_without_occurrence(text@, pattern@, with@);
        }
    }
    let t = chars_of(text);
    let p = chars_of(pattern);
    let n = t.len();
    let m = p.len();
    if m == 0 || n < m {
        return String::from_str(text);
    }
    let mut out = String::new();
    let mut start: usize = 0;
    let mut i: usize = 0;
    assert(text@.skip(0) == text@);
    assert(out@ + text@.subrange(0, 0) == Seq::<char>::empty());
    assert(Seq::<char>::empty() + replaced(text@, pattern@, with@) == replaced(
        text@,
        pattern@,
        with@,
    ));
    while n - i >= m
        invariant
            t@ == text@,
            p@ == pattern@,
            n == t.len(),
            m == p.len(),
            0 < m <= n,
            start <= i <= n,
            replaced(text@, pattern@, with@) == out@ + text@.subrange(start as int, i as int)
                + replaced(text@.skip(i as int), pattern@, with@),
        decreases n - i,
    {
        let ghost rest = text@.skip(i as int);
        assert(rest.take(m as int) == text@.subrange(i as int, i + m));
        if matches_at(&t, i, &p) {
            out.append(text.substring_char(start, i));
            out.append(with);
            assert(rest.skip(m as int) == text@.skip(i + m));
            i += m;
            start = i;
            assert(text@.subrange(start as int, i as int) == Seq::<char>::empty());
        } else {
            assert(rest.skip(1) == text@.skip(i + 1));
            assert(text@.subrange(start as int, i as int) + rest.take(1) == text@.subrange(
                start as int,
                i + 1,
            ));
            i += 1;
        }
    }
    assert(text@.subrange(start as int, i as int) + text@.skip(i as int) == text@.subrange(
        start as int,
        n as int,
    ));
    out.append(text.substring_char(start, n));
    out
}

/// `text` without the occurrences of `pattern` that it begins with, one
/// after the other. An empty pattern occurs nowhere.
pub open spec fn trimmed(text: Seq<char>, pattern: Seq<char>) -> Seq<char>
    decreases text.len(),
{
    if 0 < pattern.len() <= text.len() && text.take(pattern.len() as int) == pattern {
        trimmed(text.skip(pattern.len() as int), pattern)
    } else {
        text
    }
}

/// Trimming never lengthens a text, and shortens one that begins with the
/// pattern.
pub proof fn lemma_trimmed_shorter(text: Seq<char>, pattern: Seq<char>)
    ensures
        trimmed(text, pattern).len() <= text.len(),
        pattern.len() > 0 && occurs_at(text, 0, pattern) ==> trimmed(text, pattern).len()
            < text.len(),
    decreases text.len(),
{
    if 0 < pattern.len() <= text.len() && text.take(pattern.len() as int) == pattern {
        lemma_trimmed_shorter(text.skip(pattern.len() as int), pattern);
    } else if pattern.len() > 0 && occurs_at(text, 0, pattern) {
        assert(text.subrange(0, 0 + pattern.len() as int) == text.take(pattern.len() as int));
    }
}

/// Whether `text` begins with `pattern`.
pub fn starts_with(text: &str, pattern: &str) -> (r: bool)
    ensures
        r == occurs_at(text@, 0, pattern@),
{
    let t = chars_of(text);
    let p = chars_of(pattern);
    matches_at(&t, 0, &p)
}

/// Removes from the beginning of `text` every occurrence of `pattern`, one
/// after the other.
pub fn trim_start_all<'a>(text: &'a str, pattern: &str) -> (r: &'a str)
    ensures
        r@ == trimmed(text@, pattern@),
{
    let t = chars_of(text);
    let p = chars_of(pattern);
    let n = t.len();
    let m = p.len();
    if m == 0 {
        return text;
    }
    let mut i: usize = 0;
    assert(text@.skip(0) == text@);
    while n - i >= m && matches_at(&t, i, &p)
        invariant
            t@ == text@,
            p@ == pattern@,
            n == t.len(),
            m == p.len(),
            m > 0,
            i <= n,
            trimmed(text@, pattern@) == trimmed(text@.skip(i as int), pattern@),
        decreases n - i,
    {
        proof {
            let rest = text@.skip(i as int);
            assert(rest.take(m as int) == text@.subrange(i as int, i + m));
            assert(rest.skip(m as int) == text@.skip(i + m));
        }
        i += m;
    }
    proof {
        let rest = text@.skip(i as int);
        if n - i >= m {
            assert(rest.take(m as int) == text@.subrange(i as int, i + m));
        }
        assert(text@.subrange(i as int, n as int) == rest);
    }
    text.substring_char(i, n)
}

} // verus!
