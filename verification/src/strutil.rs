use vstd::prelude::*;
use vstd::string::StrSliceExecFns;
use vstd::string::StringExecFns;

verus! {

// ---------------------------------------------------------------------------
// Small string helpers the parsers are built on: equality and prefix tests
// over std (trusted with exact contracts), and verified scanning/splitting.
// ---------------------------------------------------------------------------

/// Relies on str's `PartialEq`: two string slices are equal exactly when
/// their character sequences are.
#[verifier::external_body]
pub fn str_eq(a: &str, b: &str) -> (r: bool)
    ensures
        r == (a@ == b@),
{
    a == b
}

/// Relies on `str::starts_with`: true exactly when `p`'s characters are a
/// prefix of `s`'s.
#[verifier::external_body]
pub fn str_starts_with(s: &str, p: &str) -> (r: bool)
    ensures
        r == (p@.len() <= s@.len() && s@.subrange(0, p@.len() as int) == p@),
{
    s.starts_with(p)
}

/// The position of the first `c` in `s`; the length of `s` when absent.
pub open spec fn spec_find_char(s: Seq<char>, c: char) -> nat
    decreases s.len(),
{
    if s.len() == 0 {
        0
    } else if s[0] == c {
        0
    } else {
        1 + spec_find_char(s.drop_first(), c)
    }
}

pub proof fn lemma_find_char_at(s: Seq<char>, c: char, k: int)
    requires
        0 <= k < s.len(),
        s[k] == c,
        forall|m: int| 0 <= m < k ==> s[m] != c,
    ensures
        spec_find_char(s, c) == k,
    decreases k,
{
    if k == 0 {
    } else {
        assert(s.drop_first()[k - 1] == c);
        lemma_find_char_at(s.drop_first(), c, k - 1);
    }
}

pub proof fn lemma_find_char_absent(s: Seq<char>, c: char)
    requires
        forall|m: int| 0 <= m < s.len() ==> s[m] != c,
    ensures
        spec_find_char(s, c) == s.len(),
    decreases s.len(),
{
    if s.len() > 0 {
        lemma_find_char_absent(s.drop_first(), c);
    }
}

/// Scans `s` from `from` for the first `c`; yields its index, or the length
/// of `s` when no such character follows.
pub fn find_char_from(s: &str, from: usize, c: char) -> (r: usize)
    requires
        from <= s@.len(),
    ensures
        from <= r <= s@.len(),
        forall|m: int| from <= m < r ==> s@[m] != c,
        r < s@.len() ==> s@[r as int] == c,
{
    let n = s.unicode_len();
    let mut j = from;
    while j < n
        invariant
            from <= j <= n,
            n == s@.len(),
            forall|m: int| from <= m < j ==> s@[m] != c,
        decreases n - j,
    {
        if s.get_char(j) == c {
            return j;
        }
        j = j + 1;
    }
    j
}

/// One line of a batch payload, its line terminator removed: a trailing
/// carriage return before the newline does not belong to the line.
pub open spec fn spec_strip_cr(l: Seq<char>) -> Seq<char> {
    if l.len() > 0 && l.last() == '\r' {
        l.drop_last()
    } else {
        l
    }
}

/// The lines of `s`, split at newlines, carriage returns stripped, with no
/// empty final line when `s` ends in a newline.
pub open spec fn spec_lines(s: Seq<char>) -> Seq<Seq<char>>
    decreases s.len(),
{
    if s.len() == 0 {
        Seq::empty()
    } else {
        let i = spec_find_char(s, '\n');
        if i < s.len() {
            seq![spec_strip_cr(s.take(i as int))] + spec_lines(s.skip(i as int + 1))
        } else {
            seq![spec_strip_cr(s)]
        }
    }
}

/// Splits a payload into its lines.
pub fn split_lines(s: &str) -> (r: Vec<String>)
    ensures
        r.deep_view() == spec_lines(s@),
{
    let n = s.unicode_len();
    let mut r: Vec<String> = Vec::new();
    let mut start: usize = 0;
    proof {
        assert(r.deep_view() =~= Seq::<Seq<char>>::empty());
        assert(s@.skip(0) =~= s@);
    }
    while start < n
        invariant
            start <= n,
            n == s@.len(),
            spec_lines(s@) == r.deep_view() + spec_lines(s@.skip(start as int)),
        decreases n - start,
    {
        let j = find_char_from(s, start, '\n');
        let mut end = j;
        if end > start && s.get_char(end - 1) == '\r' {
            end = end - 1;
        }
        let piece = String::from_str(s.substring_char(start, end));
        let ghost pv = piece@;
        let ghost rest = s@.skip(start as int);
        proof {
            assert(rest.len() > 0);
            if j < n {
                assert(rest[j - start] == '\n');
                lemma_find_char_at(rest, '\n', j - start);
            } else {
                lemma_find_char_absent(rest, '\n');
            }
            assert(rest.take(j - start) =~= s@.subrange(start as int, j as int));
            assert(pv =~= spec_strip_cr(rest.take(j - start)));
        }
        let ghost pre = r.deep_view();
        r.push(piece);
        proof {
            assert(r.deep_view() =~= pre + seq![pv]);
        }
        if j == n {
            proof {
                assert(spec_lines(rest) =~= seq![pv]);
                assert(s@.skip(n as int).len() == 0);
                assert(spec_lines(s@) =~= r.deep_view() + spec_lines(s@.skip(n as int)));
            }
            start = n;
        } else {
            proof {
                assert(rest.skip(j - start + 1) =~= s@.skip(j + 1));
                assert(spec_lines(rest) =~= seq![pv] + spec_lines(s@.skip(j + 1)));
                assert(spec_lines(s@) =~= r.deep_view() + spec_lines(s@.skip(j + 1)));
            }
            start = j + 1;
        }
    }
    proof {
        assert(s@.skip(start as int).len() == 0);
        assert(spec_lines(s@) =~= r.deep_view());
    }
    r
}

} // verus!
