//! Character sequences: equality and substring search.

use vstd::prelude::*;
use vstd::string::*;

verus! {

/// `needle` stands in `hay` starting at index `at`.
pub open spec fn occurs_at(hay: Seq<char>, needle: Seq<char>, at: int) -> bool {
    &&& 0 <= at
    &&& at + needle.len() <= hay.len()
    &&& hay.subrange(at, at + needle.len()) == needle
}

/// `needle` occurs somewhere in `hay`.
pub open spec fn contains_text(hay: Seq<char>, needle: Seq<char>) -> bool {
    exists|at: int| occurs_at(hay, needle, at)
}

/// The texts of a run of strings, in order.
pub open spec fn texts_of(strings: Seq<String>) -> Seq<Seq<char>> {
    Seq::new(strings.len(), |i: int| strings[i]@)
}

/// The text of a string that may be missing.
pub open spec fn text_of(string: Option<String>) -> Option<Seq<char>> {
    match string {
        Some(s) => Some(s@),
        None => None,
    }
}

/// The characters of `s`, in order.
pub fn chars_of(s: &str) -> (v: Vec<char>)
    ensures
        v@ == s@,
{
    broadcast use vstd::string::group_string_axioms;

    let mut v: Vec<char> = Vec::new();
    for c in it: s.chars()
        invariant
            it.seq() == s@,
            v@ == s@.take(it.index()),
    {
        v.push(c);
    }
    v
}

/// Whether `needle` stands in `hay` at index `at`.
fn matches_at(hay: &Vec<char>, needle: &Vec<char>, at: usize) -> (r: bool)
    requires
        at + needle.len() <= hay.len(),
    ensures
        r == occurs_at(hay@, needle@, at as int),
{
    let mut k: usize = 0;
    while k < needle.len()
        invariant
            k <= needle.len(),
            at + needle.len() <= hay.len(),
            forall|j: int| 0 <= j < k ==> hay@[at + j] == needle@[j],
        decreases needle.len() - k,
    {
        if hay[at + k] != needle[k] {
            assert(hay@.subrange(at as int, at + needle@.len())[k as int] != needle@[k as int]);
            return false;
        }
        k += 1;
    }
    assert(hay@.subrange(at as int, at + needle@.len()) =~= needle@);
    true
}

/// Whether two texts hold the same characters.
pub fn same_text(a: &str, b: &str) -> (r: bool)
    ensures
        r == (a@ == b@),
{
    let x = chars_of(a);
    let y = chars_of(b);
    if x.len() != y.len() {
        return false;
    }
    let r = matches_at(&x, &y, 0);
    assert(x@.subrange(0, x@.len() as int) =~= x@);
    r
}

/// Whether `needle` occurs somewhere in `hay`. The empty text occurs in
/// every text.
pub fn has_text(hay: &str, needle: &str) -> (r: bool)
    ensures
        r == contains_text(hay@, needle@),
{
    let h = chars_of(hay);
    let n = chars_of(needle);
    if n.len() > h.len() {
        return false;
    }
    let last: usize = h.len() - n.len();
    let mut at: usize = 0;
    while at < last
        invariant
            h@ == hay@,
            n@ == needle@,
            at <= last,
            last + n.len() == h.len(),
            forall|i: int| 0 <= i < at ==> !occurs_at(h@, n@, i),
        decreases last - at,
    {
        if matches_at(&h, &n, at) {
            return true;
        }
        at += 1;
    }
    matches_at(&h, &n, last)
}

/// None of the first `n` characters of `s` is `c`.
pub open spec fn lacks_char(s: Seq<char>, c: char, n: nat) -> bool
    decreases n,
{
    n == 0 || (s[n - 1] != c && lacks_char(s, c, (n - 1) as nat))
}

/// What `lacks_char` says of each index below `n`.
pub proof fn lemma_lacks_char(s: Seq<char>, c: char, n: nat, i: int)
    requires
        lacks_char(s, c, n),
        0 <= i < n,
    ensures
        s[i] != c,
    decreases n,
{
    if i < n - 1 {
        lemma_lacks_char(s, c, (n - 1) as nat, i);
    }
}

/// A text that lacks one character of `needle` does not hold `needle`.
pub proof fn lemma_missing_char(hay: Seq<char>, needle: Seq<char>, k: int)
    requires
        0 <= k < needle.len(),
        lacks_char(hay, needle[k], hay.len()),
    ensures
        !contains_text(hay, needle),
{
    assert forall|at: int| !occurs_at(hay, needle, at) by {
        if occurs_at(hay, needle, at) {
            assert(hay.subrange(at, at + needle.len())[k] == hay[at + k]);
            lemma_lacks_char(hay, needle[k], hay.len(), at + k);
        }
    }
}

/// A text that begins with `needle` holds it.
pub proof fn lemma_prefix_occurs(hay: Seq<char>, needle: Seq<char>)
    requires
        needle.len() <= hay.len(),
        forall|i: int| 0 <= i < needle.len() ==> hay[i] == needle[i],
    ensures
        contains_text(hay, needle),
{
    assert(hay.subrange(0, needle.len() as int) =~= needle);
    assert(occurs_at(hay, needle, 0));
}

/// A text that holds a second one holds whatever the second one holds.
pub proof fn lemma_contains_transitive(outer: Seq<char>, middle: Seq<char>, inner: Seq<char>)
    requires
        contains_text(outer, middle),
        contains_text(middle, inner),
    ensures
        contains_text(outer, inner),
{
    let a = choose|at: int| occurs_at(outer, middle, at);
    let b = choose|at: int| occurs_at(middle, inner, at);
    assert(outer.subrange(a + b, a + b + inner.len()) =~= outer.subrange(
        a,
        a + middle.len(),
    ).subrange(b, b + inner.len()));
    assert(occurs_at(outer, inner, a + b));
}

/// A text holds what stands in its middle.
pub proof fn lemma_middle_occurs(before: Seq<char>, middle: Seq<char>, after: Seq<char>)
    ensures
        contains_text(before + middle + after, middle),
{
    let whole = before + middle + after;
    assert(whole.subrange(before.len() as int, (before.len() + middle.len()) as int) =~= middle);
    assert(occurs_at(whole, middle, before.len() as int));
}

} // verus!
