//! Character-level text utilities with mathematical specifications.
//!
//! Strings are handled as sequences of `char`; every executable function here
//! is proved against the spec function of the same meaning.
use vstd::prelude::*;

verus! {

// ---------------------------------------------------------------------------
// Specifications
// ---------------------------------------------------------------------------

/// Unicode `White_Space` property (the set `char::is_whitespace` and
/// `str::trim` use).
pub open spec fn is_white(c: char) -> bool {
    let n = c as u32;
    (0x09 <= n && n <= 0x0d) || n == 0x20 || n == 0x85 || n == 0xa0 || n == 0x1680
        || (0x2000 <= n && n <= 0x200a) || n == 0x2028 || n == 0x2029 || n == 0x202f
        || n == 0x205f || n == 0x3000
}

/// `s` without its leading white space.
pub open spec fn trim_start(s: Seq<char>) -> Seq<char>
    decreases s.len(),
{
    if s.len() > 0 && is_white(s[0]) {
        trim_start(s.drop_first())
    } else {
        s
    }
}

/// `s` without its trailing white space.
pub open spec fn trim_end(s: Seq<char>) -> Seq<char>
    decreases s.len(),
{
    if s.len() > 0 && is_white(s.last()) {
        trim_end(s.drop_last())
    } else {
        s
    }
}

/// `s` without leading and trailing white space.
pub open spec fn trim(s: Seq<char>) -> Seq<char> {
    trim_end(trim_start(s))
}

/// `t` occurs in `s` starting at position `i`.
pub open spec fn occurs_at(s: Seq<char>, t: Seq<char>, i: int) -> bool {
    0 <= i && i + t.len() <= s.len() && s.subrange(i, i + t.len()) == t
}

/// `t` is a substring of `s`.
pub open spec fn contains(s: Seq<char>, t: Seq<char>) -> bool {
    exists|i: int| occurs_at(s, t, i)
}

/// The first position at or after `i` where `t` occurs in `s`.
pub open spec fn find_from(s: Seq<char>, t: Seq<char>, i: int) -> Option<int>
    decreases s.len() + 1 - i,
{
    if i < 0 || i + t.len() > s.len() {
        None
    } else if occurs_at(s, t, i) {
        Some(i)
    } else {
        find_from(s, t, i + 1)
    }
}

/// The first position where `t` occurs in `s`.
pub open spec fn find(s: Seq<char>, t: Seq<char>) -> Option<int> {
    find_from(s, t, 0)
}

/// `s` begins with `p`.
pub open spec fn starts_with(s: Seq<char>, p: Seq<char>) -> bool {
    p.len() <= s.len() && s.take(p.len() as int) == p
}

/// `s` ends with `p`.
pub open spec fn ends_with(s: Seq<char>, p: Seq<char>) -> bool {
    p.len() <= s.len() && s.skip(s.len() - p.len()) == p
}

/// Position of the first `c` in `s`, or the length of `s` when there is none.
pub open spec fn index_of_char(s: Seq<char>, c: char) -> int
    decreases s.len(),
{
    if s.len() == 0 {
        0
    } else if s[0] == c {
        0
    } else {
        1 + index_of_char(s.drop_first(), c)
    }
}

/// `c` occurs in `s`.
pub open spec fn contains_char(s: Seq<char>, c: char) -> bool {
    exists|i: int| 0 <= i < s.len() && s[i] == c
}

/// `s` with every occurrence of `t` removed, scanning left to right as
/// `str::replace(t, "")` does.
pub open spec fn remove_all(s: Seq<char>, t: Seq<char>) -> Seq<char>
    decreases s.len(),
{
    if t.len() == 0 || s.len() < t.len() {
        s
    } else if s.take(t.len() as int) == t {
        remove_all(s.skip(t.len() as int), t)
    } else {
        seq![s[0]] + remove_all(s.drop_first(), t)
    }
}

/// The text of `s` before its first line feed.
pub open spec fn first_line(s: Seq<char>) -> Seq<char> {
    s.take(index_of_char(s, '\n'))
}

// ---------------------------------------------------------------------------
// Lemmas
// ---------------------------------------------------------------------------

pub proof fn lemma_index_of_char(s: Seq<char>, c: char)
    ensures
        0 <= index_of_char(s, c) <= s.len(),
        forall|j: int| 0 <= j < index_of_char(s, c) ==> s[j] != c,
        index_of_char(s, c) < s.len() ==> s[index_of_char(s, c)] == c,
        contains_char(s, c) <==> index_of_char(s, c) < s.len(),
    decreases s.len(),
{
    if s.len() > 0 && s[0] != c {
        lemma_index_of_char(s.drop_first(), c);
        assert forall|j: int| 0 <= j < index_of_char(s, c) implies s[j] != c by {
            if j > 0 {
                assert(s[j] == s.drop_first()[j - 1]);
            }
        }
        if contains_char(s, c) {
            let i = choose|i: int| 0 <= i < s.len() && s[i] == c;
            assert(s.drop_first()[i - 1] == c);
        }
        if index_of_char(s, c) < s.len() {
            assert(s.drop_first()[index_of_char(s, c) - 1] == c);
        }
    }
}

pub proof fn lemma_index_of_char_unique(s: Seq<char>, c: char, k: int)
    requires
        0 <= k <= s.len(),
        forall|j: int| 0 <= j < k ==> s[j] != c,
        k < s.len() ==> s[k] == c,
    ensures
        index_of_char(s, c) == k,
    decreases s.len(),
{
    if s.len() > 0 && k > 0 {
        assert forall|j: int| 0 <= j < k - 1 implies s.drop_first()[j] != c by {
            assert(s[j + 1] != c);
        }
        lemma_index_of_char_unique(s.drop_first(), c, k - 1);
    }
}

pub proof fn lemma_find_from(s: Seq<char>, t: Seq<char>, i: int)
    requires
        0 <= i,
    ensures
        match find_from(s, t, i) {
            Some(k) => i <= k && occurs_at(s, t, k) && forall|j: int|
                i <= j < k ==> !occurs_at(s, t, j),
            None => forall|j: int| i <= j ==> !occurs_at(s, t, j),
        },
    decreases s.len() + 1 - i,
{
    if i + t.len() <= s.len() && !occurs_at(s, t, i) {
        lemma_find_from(s, t, i + 1);
    }
}

pub proof fn lemma_contains_find(s: Seq<char>, t: Seq<char>)
    ensures
        contains(s, t) <==> find(s, t) is Some,
{
    lemma_find_from(s, t, 0);
}

pub proof fn lemma_trim_start_white(s: Seq<char>, i: int)
    requires
        0 <= i < s.len(),
        is_white(s[i]),
    ensures
        trim_start(s.skip(i)) == trim_start(s.skip(i + 1)),
{
    assert(s.skip(i).drop_first() =~= s.skip(i + 1));
}

pub proof fn lemma_trim_end_white(s: Seq<char>, j: int)
    requires
        0 < j <= s.len(),
        is_white(s[j - 1]),
    ensures
        trim_end(s.take(j)) == trim_end(s.take(j - 1)),
{
    assert(s.take(j).drop_last() =~= s.take(j - 1));
}

/// Trimming a trimmed sequence changes nothing.
pub proof fn lemma_trim_idempotent(s: Seq<char>)
    ensures
        trim(trim(s)) == trim(s),
        trim(s).len() > 0 ==> !is_white(trim(s)[0]) && !is_white(trim(s).last()),
{
    lemma_trim_start_shape(s);
    lemma_trim_end_shape(trim_start(s));
    let t = trim(s);
    assert(trim_start(t) == t);
    assert(trim_end(t) == t);
}

proof fn lemma_trim_start_shape(s: Seq<char>)
    ensures
        trim_start(s).len() > 0 ==> !is_white(trim_start(s)[0]),
        exists|a: int| 0 <= a <= s.len() && trim_start(s) == s.skip(a),
    decreases s.len(),
{
    if s.len() > 0 && is_white(s[0]) {
        lemma_trim_start_shape(s.drop_first());
        let a = choose|a: int|
            0 <= a <= s.drop_first().len() && trim_start(s.drop_first()) == s.drop_first().skip(a);
        assert(s.drop_first().skip(a) =~= s.skip(a + 1));
    } else {
        assert(s.skip(0) =~= s);
    }
}

proof fn lemma_trim_end_shape(s: Seq<char>)
    ensures
        trim_end(s).len() > 0 ==> !is_white(trim_end(s).last()) && trim_end(s)[0] == s[0],
        exists|b: int| 0 <= b <= s.len() && trim_end(s) == s.take(b),
    decreases s.len(),
{
    if s.len() > 0 && is_white(s.last()) {
        lemma_trim_end_shape(s.drop_last());
        let b = choose|b: int|
            0 <= b <= s.drop_last().len() && trim_end(s.drop_last()) == s.drop_last().take(b);
        assert(s.drop_last().take(b) =~= s.take(b));
    } else {
        assert(s.take(s.len() as int) =~= s);
    }
}

/// A character absent from `s` is absent from its trimmed form.
pub proof fn lemma_trim_keeps_absent(s: Seq<char>, c: char)
    requires
        !contains_char(s, c),
    ensures
        !contains_char(trim(s), c),
{
    lemma_trim_start_shape(s);
    let a = choose|a: int| 0 <= a <= s.len() && trim_start(s) == s.skip(a);
    lemma_trim_end_shape(trim_start(s));
    let b = choose|b: int|
        0 <= b <= trim_start(s).len() && trim_end(trim_start(s)) == trim_start(s).take(b);
    if contains_char(trim(s), c) {
        let i = choose|i: int| 0 <= i < trim(s).len() && trim(s)[i] == c;
        assert(s[a + i] == c);
    }
}

/// A character absent from `s` stays absent when occurrences of `t` are removed.
pub proof fn lemma_remove_all_keeps_absent(s: Seq<char>, t: Seq<char>, c: char)
    requires
        !contains_char(s, c),
    ensures
        !contains_char(remove_all(s, t), c),
    decreases s.len(),
{
    if t.len() == 0 || s.len() < t.len() {
    } else if s.take(t.len() as int) == t {
        assert forall|i: int| 0 <= i < s.skip(t.len() as int).len() implies s.skip(
            t.len() as int,
        )[i] != c by {
            assert(s[i + t.len()] != c);
        }
        lemma_remove_all_keeps_absent(s.skip(t.len() as int), t, c);
    } else {
        assert forall|i: int| 0 <= i < s.drop_first().len() implies s.drop_first()[i] != c by {
            assert(s[i + 1] != c);
        }
        lemma_remove_all_keeps_absent(s.drop_first(), t, c);
        let r = remove_all(s.drop_first(), t);
        if contains_char(seq![s[0]] + r, c) {
            let i = choose|i: int| 0 <= i < (seq![s[0]] + r).len() && (seq![s[0]] + r)[i] == c;
            if i > 0 {
                assert(r[i - 1] == c);
            }
        }
    }
}

/// Removing occurrences never lengthens a sequence, and shortens it when
/// there is one to remove.
pub proof fn lemma_remove_all_len(s: Seq<char>, t: Seq<char>)
    ensures
        remove_all(s, t).len() <= s.len(),
        t.len() > 0 && contains(s, t) ==> remove_all(s, t).len() < s.len(),
    decreases s.len(),
{
    if t.len() == 0 || s.len() < t.len() {
    } else if s.take(t.len() as int) == t {
        lemma_remove_all_len(s.skip(t.len() as int), t);
    } else {
        lemma_remove_all_len(s.drop_first(), t);
        if contains(s, t) {
            let i = choose|i: int| occurs_at(s, t, i);
            assert(s.subrange(0, t.len() as int) =~= s.take(t.len() as int));
            assert(i != 0);
            assert(s.drop_first().subrange(i - 1, i - 1 + t.len()) =~= s.subrange(i, i + t.len()));
            assert(occurs_at(s.drop_first(), t, i - 1));
        }
    }
}

/// A removal that keeps the length removes nothing.
pub proof fn lemma_remove_all_same_len(s: Seq<char>, t: Seq<char>)
    requires
        t.len() > 0,
        remove_all(s, t).len() == s.len(),
    ensures
        !contains(s, t),
        remove_all(s, t) == s,
{
    lemma_remove_all_len(s, t);
    lemma_remove_all_absent(s, t);
}

/// The trimmed form is a contiguous part of the sequence.
pub proof fn lemma_trim_is_subrange(s: Seq<char>)
    ensures
        exists|a: int, b: int| 0 <= a <= b <= s.len() && trim(s) == s.subrange(a, b),
{
    lemma_trim_start_shape(s);
    let a = choose|a: int| 0 <= a <= s.len() && trim_start(s) == s.skip(a);
    lemma_trim_end_shape(trim_start(s));
    let b = choose|b: int|
        0 <= b <= trim_start(s).len() && trim_end(trim_start(s)) == trim_start(s).take(b);
    assert(trim(s) =~= s.subrange(a, a + b));
}

/// A substring absent from `s` is absent from its trimmed form.
pub proof fn lemma_trim_keeps_absent_text(s: Seq<char>, t: Seq<char>)
    requires
        !contains(s, t),
    ensures
        !contains(trim(s), t),
{
    lemma_trim_is_subrange(s);
    let (a, b) = choose|a: int, b: int| 0 <= a <= b <= s.len() && trim(s) == s.subrange(a, b);
    if contains(trim(s), t) {
        let i = choose|i: int| occurs_at(trim(s), t, i);
        assert(s.subrange(a + i, a + i + t.len()) =~= trim(s).subrange(i, i + t.len()));
        assert(occurs_at(s, t, a + i));
    }
}

/// Removing a substring that does not occur changes nothing.
pub proof fn lemma_remove_all_absent(s: Seq<char>, t: Seq<char>)
    requires
        !contains(s, t),
    ensures
        remove_all(s, t) == s,
    decreases s.len(),
{
    if t.len() == 0 || s.len() < t.len() {
    } else {
        assert(!occurs_at(s, t, 0));
        assert(s.subrange(0, t.len() as int) =~= s.take(t.len() as int));
        assert forall|i: int| !occurs_at(s.drop_first(), t, i) by {
            if occurs_at(s.drop_first(), t, i) {
                assert(s.drop_first().subrange(i, i + t.len()) =~= s.subrange(
                    i + 1,
                    i + 1 + t.len(),
                ));
                assert(occurs_at(s, t, i + 1));
            }
        }
        lemma_remove_all_absent(s.drop_first(), t);
        assert(seq![s[0]] + s.drop_first() =~= s);
    }
}

// ---------------------------------------------------------------------------
// Executable functions
// ---------------------------------------------------------------------------

/// Relies on `String`'s `FromIterator<&char>`: the string holds the given
/// characters in order.
#[verifier::external_body]
pub(crate) fn string_of(v: &Vec<char>) -> (r: String)
    ensures
        r@ == v@,
{
    String::from_iter(v.iter())
}

/// The characters of `s`, in order.
pub fn chars_of(s: &str) -> (r: Vec<char>)
    ensures
        r@ == s@,
{
    let mut v: Vec<char> = Vec::new();
    for c in it: s.chars()
        invariant
            it.seq() == s@,
            v@ == it.seq().take(it.index() as int),
    {
        v.push(c);
    }
    v
}

/// Whether `c` has the Unicode `White_Space` property.
pub fn is_white_space(c: char) -> (r: bool)
    ensures
        r == is_white(c),
{
    let n = c as u32;
    (0x09 <= n && n <= 0x0d) || n == 0x20 || n == 0x85 || n == 0xa0 || n == 0x1680 || (0x2000
        <= n && n <= 0x200a) || n == 0x2028 || n == 0x2029 || n == 0x202f || n == 0x205f || n
        == 0x3000
}

/// The characters of `s` from `a` up to `b`.
pub fn slice_chars(s: &Vec<char>, a: usize, b: usize) -> (r: Vec<char>)
    requires
        a <= b <= s.len(),
    ensures
        r@ == s@.subrange(a as int, b as int),
{
    let mut r: Vec<char> = Vec::new();
    let mut i = a;
    while i < b
        invariant
            a <= i <= b <= s.len(),
            r@ == s@.subrange(a as int, i as int),
        decreases b - i,
    {
        r.push(s[i]);
        i += 1;
        assert(r@ =~= s@.subrange(a as int, i as int));
    }
    r
}

/// Whether the two sequences are equal.
pub fn same_chars(a: &Vec<char>, b: &Vec<char>) -> (r: bool)
    ensures
        r == (a@ == b@),
{
    if a.len() != b.len() {
        return false;
    }
    let mut i: usize = 0;
    while i < a.len()
        invariant
            i <= a.len() == b.len(),
            forall|j: int| 0 <= j < i ==> a@[j] == b@[j],
        decreases a.len() - i,
    {
        if a[i] != b[i] {
            return false;
        }
        i += 1;
    }
    assert(a@ =~= b@);
    true
}

/// Number of white-space characters at the start of `s`.
pub fn leading_white(s: &Vec<char>) -> (r: usize)
    ensures
        r <= s.len(),
        trim_start(s@) == s@.skip(r as int),
{
    let mut a: usize = 0;
    assert(s@.skip(0) =~= s@);
    while a < s.len() && is_white_space(s[a])
        invariant
            a <= s.len(),
            trim_start(s@) == trim_start(s@.skip(a as int)),
        decreases s.len() - a,
    {
        proof {
            lemma_trim_start_white(s@, a as int);
        }
        a += 1;
    }
    a
}

/// `s` without leading and trailing white space.
pub fn trim_chars(s: &Vec<char>) -> (r: Vec<char>)
    ensures
        r@ == trim(s@),
{
    let a = leading_white(s);
    let ghost rest = s@.skip(a as int);
    assert(trim_start(s@) == rest);
    let mut b: usize = s.len();
    assert(rest.take(rest.len() as int) =~= rest);
    while b > a && is_white_space(s[b - 1])
        invariant
            a <= b <= s.len(),
            rest == s@.skip(a as int),
            trim_end(rest) == trim_end(rest.take(b - a)),
        decreases b,
    {
        proof {
            lemma_trim_end_white(rest, (b - a) as int);
        }
        b -= 1;
    }
    assert(rest.take(b - a) =~= s@.subrange(a as int, b as int));
    slice_chars(s, a, b)
}

/// Whether `t` occurs in `s` at position `i`.
pub fn matches_at(s: &Vec<char>, t: &Vec<char>, i: usize) -> (r: bool)
    ensures
        r == occurs_at(s@, t@, i as int),
{
    if i > s.len() || t.len() > s.len() - i {
        return false;
    }
    let mut k: usize = 0;
    while k < t.len()
        invariant
            i + t.len() <= s.len(),
            k <= t.len(),
            forall|j: int| 0 <= j < k ==> s@[i + j] == t@[j],
        decreases t.len() - k,
    {
        if s[i + k] != t[k] {
            assert(s@.subrange(i as int, i + t.len())[k as int] != t@[k as int]);
            return false;
        }
        k += 1;
    }
    assert(s@.subrange(i as int, i + t.len()) =~= t@);
    true
}

/// The first position where `t` occurs in `s`.
pub fn find_chars(s: &Vec<char>, t: &Vec<char>) -> (r: Option<usize>)
    ensures
        match r {
            Some(k) => find(s@, t@) == Some(k as int),
            None => find(s@, t@) is None,
        },
{
    if t.len() > s.len() {
        return None;
    }
    let mut i: usize = 0;
    loop
        invariant
            t.len() <= s.len(),
            i <= s.len() - t.len(),
            find_from(s@, t@, 0) == find_from(s@, t@, i as int),
        decreases s.len() - t.len() - i,
    {
        if matches_at(s, t, i) {
            return Some(i);
        }
        if i == s.len() - t.len() {
            assert(find_from(s@, t@, i + 1) is None);
            return None;
        }
        i += 1;
    }
}

/// Whether `t` occurs in `s`.
pub fn contains_chars(s: &Vec<char>, t: &Vec<char>) -> (r: bool)
    ensures
        r == contains(s@, t@),
{
    proof {
        lemma_contains_find(s@, t@);
    }
    find_chars(s, t).is_some()
}

/// Position of the first `c` in `s`, or the length of `s`.
pub fn index_of(s: &Vec<char>, c: char) -> (r: usize)
    ensures
        r == index_of_char(s@, c),
        r <= s.len(),
{
    let mut i: usize = 0;
    while i < s.len() && s[i] != c
        invariant
            i <= s.len(),
            forall|j: int| 0 <= j < i ==> s@[j] != c,
        decreases s.len() - i,
    {
        i += 1;
    }
    proof {
        lemma_index_of_char_unique(s@, c, i as int);
    }
    i
}

/// Position of the first `c` in `s` at or after `start`, or the length of `s`.
pub fn index_of_from(s: &Vec<char>, c: char, start: usize) -> (r: usize)
    requires
        start <= s.len(),
    ensures
        r == start + index_of_char(s@.skip(start as int), c),
        start <= r <= s.len(),
{
    let mut i = start;
    while i < s.len() && s[i] != c
        invariant
            start <= i <= s.len(),
            forall|j: int| start <= j < i ==> s@[j] != c,
        decreases s.len() - i,
    {
        i += 1;
    }
    proof {
        lemma_index_of_char_unique(s@.skip(start as int), c, (i - start) as int);
    }
    i
}

/// Appends the characters of `src` to `dst`.
pub fn append_chars(dst: &mut Vec<char>, src: &Vec<char>)
    ensures
        final(dst)@ == old(dst)@ + src@,
{
    let mut i: usize = 0;
    while i < src.len()
        invariant
            i <= src.len(),
            dst@ == old(dst)@ + src@.take(i as int),
        decreases src.len() - i,
    {
        dst.push(src[i]);
        i += 1;
        assert(dst@ =~= old(dst)@ + src@.take(i as int));
    }
    assert(src@.take(src.len() as int) =~= src@);
}

/// Whether `c` occurs in `s`.
pub fn has_char(s: &Vec<char>, c: char) -> (r: bool)
    ensures
        r == contains_char(s@, c),
{
    proof {
        lemma_index_of_char(s@, c);
    }
    index_of(s, c) < s.len()
}

/// Whether `s` begins with `p`.
pub fn starts_with_chars(s: &Vec<char>, p: &Vec<char>) -> (r: bool)
    ensures
        r == starts_with(s@, p@),
{
    if p.len() > s.len() {
        return false;
    }
    let r = matches_at(s, p, 0);
    assert(s@.subrange(0, p.len() as int) =~= s@.take(p.len() as int));
    r
}

/// Whether `s` ends with `p`.
pub fn ends_with_chars(s: &Vec<char>, p: &Vec<char>) -> (r: bool)
    ensures
        r == ends_with(s@, p@),
{
    if p.len() > s.len() {
        return false;
    }
    let r = matches_at(s, p, s.len() - p.len());
    assert(s@.subrange((s.len() - p.len()) as int, s.len() as int) =~= s@.skip(
        s.len() - p.len(),
    ));
    r
}

/// `s` with every occurrence of `t` removed, left to right.
pub fn remove_all_chars(s: &Vec<char>, t: &Vec<char>) -> (r: Vec<char>)
    ensures
        r@ == remove_all(s@, t@),
{
    if t.len() == 0 {
        return s.clone();
    }
    let mut r: Vec<char> = Vec::new();
    let mut i: usize = 0;
    assert(s@.skip(0) =~= s@);
    while i < s.len()
        invariant
            t.len() > 0,
            i <= s.len(),
            remove_all(s@, t@) == r@ + remove_all(s@.skip(i as int), t@),
        decreases s.len() - i,
    {
        let ghost rest = s@.skip(i as int);
        if matches_at(s, t, i) {
            assert(rest.take(t.len() as int) =~= s@.subrange(i as int, i + t.len()));
            assert(rest.skip(t.len() as int) =~= s@.skip(i + t.len()));
            i += t.len();
        } else {
            proof {
                if rest.len() >= t.len() {
                    assert(rest.take(t.len() as int) =~= s@.subrange(i as int, i + t.len()));
                }
            }
            assert(rest.drop_first() =~= s@.skip(i + 1));
            r.push(s[i]);
            i += 1;
            assert(r@ + remove_all(s@.skip(i as int), t@) =~= r@.drop_last() + (seq![rest[0]]
                + remove_all(rest.drop_first(), t@)));
        }
    }
    assert(s@.skip(i as int) =~= Seq::<char>::empty());
    assert(r@ + Seq::<char>::empty() =~= r@);
    r
}

} // verus!
