//! Character-level scanning helpers shared by the URL matcher and the record builders.
use vstd::prelude::*;

verus! {

/// `lit` occurs in `s` starting at index `i`.
pub open spec fn occurs_at(s: Seq<char>, i: int, lit: Seq<char>) -> bool {
    0 <= i && i + lit.len() <= s.len() && s.subrange(i, i + lit.len()) == lit
}

/// The character classes that URL components are made of.
#[derive(Clone, Copy, PartialEq, Eq, Debug)]
pub enum CharClass {
    /// Anything but `/`, `?` and `#`: a path segment up to its query or fragment.
    NameChar,
    /// Anything but `/`.
    SegmentChar,
    /// Anything but `&` and `#`: a query parameter's value.
    ValueChar,
    /// Anything but `#`.
    NonFragment,
    /// An ASCII decimal digit.
    Digit,
}

pub open spec fn in_class(class: CharClass, c: char) -> bool {
    match class {
        CharClass::NameChar => c != '/' && c != '?' && c != '#',
        CharClass::SegmentChar => c != '/',
        CharClass::ValueChar => c != '&' && c != '#',
        CharClass::NonFragment => c != '#',
        CharClass::Digit => '0' <= c && c <= '9',
    }
}

/// The end of the longest run of `class` characters in `s` that starts at `i`.
pub open spec fn run_end(s: Seq<char>, i: int, class: CharClass) -> int
    decreases s.len() - i,
{
    if 0 <= i < s.len() && in_class(class, s[i]) {
        run_end(s, i + 1, class)
    } else {
        i
    }
}

pub proof fn lemma_run_end_bounds(s: Seq<char>, i: int, class: CharClass)
    requires
        0 <= i <= s.len(),
    ensures
        i <= run_end(s, i, class) <= s.len(),
        forall|k: int| i <= k < run_end(s, i, class) ==> in_class(class, #[trigger] s[k]),
        run_end(s, i, class) < s.len() ==> !in_class(class, s[run_end(s, i, class)]),
    decreases s.len() - i,
{
    if i < s.len() && in_class(class, s[i]) {
        lemma_run_end_bounds(s, i + 1, class);
    }
}

pub proof fn lemma_run_end_at(s: Seq<char>, i: int, j: int, class: CharClass)
    requires
        0 <= i <= j <= s.len(),
        forall|k: int| i <= k < j ==> in_class(class, #[trigger] s[k]),
        j == s.len() || !in_class(class, s[j]),
    ensures
        run_end(s, i, class) == j,
    decreases j - i,
{
    if i < j {
        lemma_run_end_at(s, i + 1, j, class);
    }
}

/// A character that differs from `lit` rules out an occurrence.
pub proof fn lemma_mismatch(s: Seq<char>, i: int, lit: Seq<char>, k: int)
    requires
        0 <= k < lit.len(),
        0 <= i,
        i + k < s.len(),
        s[i + k] != lit[k],
    ensures
        !occurs_at(s, i, lit),
{
    if occurs_at(s, i, lit) {
        assert(s.subrange(i, i + lit.len())[k] == s[i + k]);
    }
}

/// Whether `lit` occurs in `s` at index `i`; `len` is the length of `s` in characters.
pub fn occurs_at_exec(s: &str, len: usize, i: usize, lit: &str) -> (r: bool)
    requires
        len == s@.len(),
    ensures
        r == occurs_at(s@, i as int, lit@),
{
    let n = lit.unicode_len();
    if i > len || n > len - i {
        return false;
    }
    let mut k: usize = 0;
    while k < n
        invariant
            n == lit@.len(),
            len == s@.len(),
            i + n <= len,
            k <= n,
            forall|j: int| 0 <= j < k ==> s@[i + j] == lit@[j],
        decreases n - k,
    {
        if s.get_char(i + k) != lit.get_char(k) {
            proof {
                assert(s@.subrange(i as int, i + n)[k as int] != lit@[k as int]);
            }
            return false;
        }
        k = k + 1;
    }
    proof {
        assert(s@.subrange(i as int, i + n) =~= lit@);
    }
    true
}

/// The end of the longest run of `class` characters that starts at `i`.
pub fn run_end_exec(s: &str, len: usize, i: usize, class: CharClass) -> (r: usize)
    requires
        len == s@.len(),
        i <= len,
    ensures
        r == run_end(s@, i as int, class),
        i <= r <= len,
{
    let mut j: usize = i;
    while j < len
        invariant
            len == s@.len(),
            i <= j <= len,
            run_end(s@, j as int, class) == run_end(s@, i as int, class),
        decreases len - j,
    {
        let c = s.get_char(j);
        let inside = match class {
            CharClass::NameChar => c != '/' && c != '?' && c != '#',
            CharClass::SegmentChar => c != '/',
            CharClass::ValueChar => c != '&' && c != '#',
            CharClass::NonFragment => c != '#',
            CharClass::Digit => '0' <= c && c <= '9',
        };
        if !inside {
            return j;
        }
        j = j + 1;
    }
    j
}

/// Whether two strings hold the same characters.
pub fn same_text(a: &str, b: &str) -> (r: bool)
    ensures
        r == (a@ == b@),
{
    let n = a.unicode_len();
    if n != b.unicode_len() {
        return false;
    }
    let r = occurs_at_exec(a, n, 0, b);
    proof {
        assert(a@.subrange(0, n as int) =~= a@);
    }
    r
}

/// The characters of `s` from `from` up to `to`, as an owned string.
pub fn slice_owned(s: &str, from: usize, to: usize) -> (r: String)
    requires
        from <= to <= s@.len(),
    ensures
        r@ == s@.subrange(from as int, to as int),
{
    String::from_str(s.substring_char(from, to))
}

} // verus!
