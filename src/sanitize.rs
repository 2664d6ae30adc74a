//! Cleaning of description text before it is read: a one-line triple-quoted
//! string is split over two lines, and the word `loop` becomes `looping`.
use vstd::prelude::*;
use vstd::string::*;

verus! {

/// What `regex::Regex::new(pattern)` followed by `replace(haystack, replacement)`
/// gives: the first match replaced; none when the pattern does not compile.
pub uninterp spec fn regex_replace_first(pattern: Seq<char>, haystack: Seq<char>, replacement: Seq<char>) -> Option<Seq<char>>;

/// Relies on `regex::Regex::new` and `regex::Regex::replace`: the first match of
/// `pattern` in `haystack` is replaced by `replacement`, where `$1` stands for
/// the first capture group; the result depends on the three texts alone.
#[verifier::external_body]
fn replace_first_match(pattern: &str, haystack: &str, replacement: &str) -> (r: Option<String>)
    ensures
        r matches Some(t) ==> regex_replace_first(pattern@, haystack@, replacement@) == Some(t@),
        r is None ==> regex_replace_first(pattern@, haystack@, replacement@) is None,
{
    match regex::Regex::new(pattern) {
        Ok(re) => Some(re.replace(haystack, replacement).into_owned()),
        Err(_) => None,
    }
}

/// `s` with every non-overlapping occurrence of `from`, scanned from the left,
/// replaced by `to`.
pub open spec fn replace_all(s: Seq<char>, from: Seq<char>, to: Seq<char>) -> Seq<char>
    recommends
        from.len() > 0,
    decreases s.len(),
{
    if s.len() == 0 || from.len() == 0 {
        s
    } else if from.len() <= s.len() && s.take(from.len() as int) == from {
        to + replace_all(s.skip(from.len() as int), from, to)
    } else {
        seq![s[0]] + replace_all(s.skip(1), from, to)
    }
}

/// Whether `pat` occurs in `s` at position `i`.
fn occurs_at(s: &str, n: usize, i: usize, pat: &str) -> (r: bool)
    requires
        n == s@.len(),
        i <= n,
    ensures
        r == (pat@.len() <= s@.len() - i && s@.skip(i as int).take(pat@.len() as int) == pat@),
{
    let m = pat.unicode_len();
    if m > n - i {
        return false;
    }
    let mut j: usize = 0;
    while j < m
        invariant
            j <= m,
            m == pat@.len(),
            m <= n - i,
            n == s@.len(),
            forall|k: int| 0 <= k < j ==> s@[i + k] == pat@[k],
        decreases m - j,
    {
        if s.get_char(i + j) != pat.get_char(j) {
            assert(s@.skip(i as int).take(m as int)[j as int] != pat@[j as int]);
            return false;
        }
        j = j + 1;
    }
    assert(s@.skip(i as int).take(m as int) =~= pat@);
    true
}

/// Replaces every non-overlapping occurrence of `from` in `s` by `to`.
pub fn replace_text(s: &str, from: &str, to: &str) -> (r: String)
    requires
        from@.len() > 0,
    ensures
        r@ == replace_all(s@, from@, to@),
{
    let n = s.unicode_len();
    let m = from.unicode_len();
    let mut out = String::new();
    let mut i: usize = 0;
    assert(s@.skip(0) =~= s@);
    while i < n
        invariant
            i <= n,
            n == s@.len(),
            m == from@.len(),
            m > 0,
            out@ + replace_all(s@.skip(i as int), from@, to@) == replace_all(s@, from@, to@),
        decreases n - i,
    {
        let ghost rest = s@.skip(i as int);
        if occurs_at(s, n, i, from) {
            assert(rest.skip(m as int) =~= s@.skip(i + m));
            out.append(to);
            i = i + m;
        } else {
            assert(rest.skip(1) =~= s@.skip(i + 1));
            out.append(s.substring_char(i, i + 1));
            assert(s@.subrange(i as int, i + 1) =~= seq![rest[0]]);
            i = i + 1;
        }
        assert(out@ + replace_all(s@.skip(i as int), from@, to@) == replace_all(s@, from@, to@));
    }
    assert(s@.skip(n as int).len() == 0);
    assert(out@ + Seq::<char>::empty() =~= out@);
    out
}

/// The triple-quote pattern and its replacement.
pub open spec fn inline_quote_split(s: Seq<char>) -> Seq<char> {
    match regex_replace_first("'''([^\n]*)'''"@, s, "'''$1\n'''"@) {
        Some(t) => t,
        None => s,
    }
}

/// The cleaned text of a description: the first one-line `'''...'''` string is
/// split before its closing quotes, then every `loop` becomes `looping`.
pub fn sanitize(s: String) -> (r: String)
    ensures
        r@ == replace_all(inline_quote_split(s@), "loop"@, "looping"@),
{
    let split = match replace_first_match("'''([^\n]*)'''", s.as_str(), "'''$1\n'''") {
        Some(t) => t,
        None => s,
    };
    proof {
        reveal_strlit("loop");
    }
    replace_text(split.as_str(), "loop", "looping")
}

} // verus!
