use vstd::prelude::*;
use vstd::string::*;

verus! {

/// Whether `s` ends with `suffix`.
pub open spec fn ends_with_spec(s: Seq<char>, suffix: Seq<char>) -> bool {
    suffix.len() <= s.len() && s.subrange(s.len() - suffix.len(), s.len() as int) == suffix
}

/// Whether `s` starts with `prefix`.
pub open spec fn starts_with_spec(s: Seq<char>, prefix: Seq<char>) -> bool {
    prefix.len() <= s.len() && s.subrange(0, prefix.len() as int) == prefix
}

/// Whether `pattern` occurs in `s` at index `at`.
pub open spec fn occurs_at(s: Seq<char>, pattern: Seq<char>, at: int) -> bool {
    0 <= at && at + pattern.len() <= s.len() && s.subrange(at, at + pattern.len()) == pattern
}

/// Whether `pattern` occurs anywhere in `s`.
pub open spec fn contains_spec(s: Seq<char>, pattern: Seq<char>) -> bool {
    exists|at: int| occurs_at(s, pattern, at)
}

/// What `str::to_lowercase` returns for a string.
pub uninterp spec fn lower_of(s: Seq<char>) -> Seq<char>;

/// What `str::trim` leaves of a string.
pub uninterp spec fn trimmed(s: Seq<char>) -> Seq<char>;

/// Relies on `String::push`: appends one character.
#[verifier::external_body]
pub(crate) fn push_char(s: &mut String, c: char)
    ensures
        final(s)@ == old(s)@.push(c),
{
    s.push(c)
}

/// Relies on `str::to_lowercase`: the result depends on the characters alone.
#[verifier::external_body]
pub(crate) fn to_lowercase(s: &str) -> (r: String)
    ensures
        r@ == lower_of(s@),
{
    s.to_lowercase()
}

/// Relies on `str::trim`: leading and trailing whitespace removed; an empty
/// string stays empty.
#[verifier::external_body]
pub(crate) fn trim(s: &str) -> (r: String)
    ensures
        r@ == trimmed(s@),
        s@.len() == 0 ==> r@.len() == 0,
{
    s.trim().to_string()
}

/// A new string holding the characters of `s`.
pub(crate) fn owned(s: &str) -> (r: String)
    ensures
        r@ == s@,
{
    s.to_owned()
}

/// `a` followed by `b`.
pub(crate) fn concat(a: &str, b: &str) -> (r: String)
    ensures
        r@ == a@ + b@,
{
    let mut r = a.to_owned();
    r.append(b);
    r
}

/// Whether the characters of `s` from `at` on begin with `pattern`.
pub fn matches_at(s: &str, pattern: &str, at: usize) -> (r: bool)
    ensures
        r == occurs_at(s@, pattern@, at as int),
{
    let n = s.unicode_len();
    let m = pattern.unicode_len();
    if at > n || m > n - at {
        return false;
    }
    let mut i: usize = 0;
    while i < m
        invariant
            n == s@.len(),
            m == pattern@.len(),
            at + m <= n,
            0 <= i <= m,
            forall|j: int| 0 <= j < i ==> s@[at + j] == pattern@[j],
        decreases m - i,
    {
        if s.get_char(at + i) != pattern.get_char(i) {
            assert(s@.subrange(at as int, at + m)[i as int] != pattern@[i as int]);
            return false;
        }
        i = i + 1;
    }
    assert(s@.subrange(at as int, at + m) =~= pattern@);
    true
}

/// Whether `s` ends with `suffix`.
pub fn ends_with(s: &str, suffix: &str) -> (r: bool)
    ensures
        r == ends_with_spec(s@, suffix@),
{
    let n = s.unicode_len();
    let m = suffix.unicode_len();
    if m > n {
        return false;
    }
    matches_at(s, suffix, n - m)
}

/// Whether `s` starts with `prefix`.
pub fn starts_with(s: &str, prefix: &str) -> (r: bool)
    ensures
        r == starts_with_spec(s@, prefix@),
{
    matches_at(s, prefix, 0)
}

/// Whether `pattern` occurs in `s`.
pub fn contains(s: &str, pattern: &str) -> (r: bool)
    ensures
        r == contains_spec(s@, pattern@),
{
    let n = s.unicode_len();
    let m = pattern.unicode_len();
    if m > n {
        return false;
    }
    let last = n - m;
    let mut at: usize = 0;
    while at < last
        invariant
            n == s@.len(),
            m == pattern@.len(),
            last == n - m,
            0 <= at <= last,
            forall|k: int| 0 <= k < at ==> !occurs_at(s@, pattern@, k),
        decreases last - at,
    {
        if matches_at(s, pattern, at) {
            return true;
        }
        at = at + 1;
    }
    if matches_at(s, pattern, last) {
        return true;
    }
    assert forall|k: int| !occurs_at(s@, pattern@, k) by {
        if 0 <= k < at {
        }
    }
    false
}

/// Characters of `s` from index `from` on.
pub fn suffix_from(s: &str, from: usize) -> (r: String)
    requires
        from <= s@.len(),
    ensures
        r@ == s@.subrange(from as int, s@.len() as int),
{
    let n = s.unicode_len();
    s.substring_char(from, n).to_owned()
}

} // verus!
