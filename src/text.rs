//! Character-level text search: the spec vocabulary that every extractor of
//! the library is stated in, and the executable searches proved against it.
use vstd::prelude::*;

verus! {

/// `pat` occurs in `s` starting at position `i`.
pub open spec fn occurs_at(s: Seq<char>, pat: Seq<char>, i: int) -> bool {
    0 <= i && i + pat.len() <= s.len() && s.subrange(i, i + pat.len()) == pat
}

/// `pat` occurs somewhere in `s`.
pub open spec fn contains(s: Seq<char>, pat: Seq<char>) -> bool {
    exists|i: int| occurs_at(s, pat, i)
}

/// The first position at or after `from` where `pat` occurs in `s`.
pub open spec fn index_of_from(s: Seq<char>, pat: Seq<char>, from: int) -> Option<int>
    decreases s.len() + 1 - from,
{
    if from < 0 || from + pat.len() > s.len() {
        None
    } else if occurs_at(s, pat, from) {
        Some(from)
    } else {
        index_of_from(s, pat, from + 1)
    }
}

/// The first position where `pat` occurs in `s`.
pub open spec fn index_of(s: Seq<char>, pat: Seq<char>) -> Option<int> {
    index_of_from(s, pat, 0)
}

/// The last position where `pat` occurs in `s`, searching down from `upto`.
pub open spec fn last_index_upto(s: Seq<char>, pat: Seq<char>, upto: int) -> Option<int>
    decreases upto + 1,
{
    if upto < 0 {
        None
    } else if occurs_at(s, pat, upto) {
        Some(upto)
    } else {
        last_index_upto(s, pat, upto - 1)
    }
}

/// The last position where `pat` occurs in `s`.
pub open spec fn last_index_of(s: Seq<char>, pat: Seq<char>) -> Option<int> {
    last_index_upto(s, pat, s.len() - pat.len())
}

/// What precedes the first `pat` in `s`; all of `s` when `pat` is absent
/// (the first piece of `s` split on `pat`).
pub open spec fn before(s: Seq<char>, pat: Seq<char>) -> Seq<char> {
    match index_of(s, pat) {
        Some(i) => s.take(i),
        None => s,
    }
}

/// What follows the first `pat` in `s`, if `pat` occurs.
pub open spec fn after(s: Seq<char>, pat: Seq<char>) -> Option<Seq<char>> {
    match index_of(s, pat) {
        Some(i) => Some(s.skip(i + pat.len())),
        None => None,
    }
}

/// The second piece of `s` split on `pat`: the text between its first and
/// its second occurrence (or the end).
pub open spec fn second_piece(s: Seq<char>, pat: Seq<char>) -> Option<Seq<char>> {
    match after(s, pat) {
        Some(t) => Some(before(t, pat)),
        None => None,
    }
}

/// What follows the last `pat` in `s`; all of `s` when `pat` is absent
/// (the last piece of `s` split on `pat`).
pub open spec fn after_last(s: Seq<char>, pat: Seq<char>) -> Seq<char> {
    match last_index_of(s, pat) {
        Some(i) => s.skip(i + pat.len()),
        None => s,
    }
}

/// `s` starts with `pat`.
pub open spec fn starts_with(s: Seq<char>, pat: Seq<char>) -> bool {
    occurs_at(s, pat, 0)
}

/// `s` ends with `pat`.
pub open spec fn ends_with(s: Seq<char>, pat: Seq<char>) -> bool {
    pat.len() <= s.len() && occurs_at(s, pat, s.len() - pat.len())
}

pub open spec fn index_view(o: Option<usize>) -> Option<int> {
    match o {
        Some(i) => Some(i as int),
        None => None,
    }
}

pub open spec fn text_view(o: Option<String>) -> Option<Seq<char>> {
    match o {
        Some(s) => Some(s@),
        None => None,
    }
}

/// The first occurrence found from `from` is an occurrence, and none lies
/// between `from` and it; when there is none, `pat` occurs nowhere from `from` on.
pub proof fn lemma_index_of_from(s: Seq<char>, pat: Seq<char>, from: int)
    requires
        0 <= from,
    ensures
        match index_of_from(s, pat, from) {
            Some(i) => from <= i && occurs_at(s, pat, i) && forall|j: int|
                from <= j < i ==> !occurs_at(s, pat, j),
            None => forall|j: int| from <= j ==> !occurs_at(s, pat, j),
        },
    decreases s.len() + 1 - from,
{
    if from + pat.len() > s.len() {
    } else if occurs_at(s, pat, from) {
    } else {
        lemma_index_of_from(s, pat, from + 1);
    }
}

/// `index_of` finds an occurrence exactly when `pat` is contained in `s`.
pub proof fn lemma_index_of_contains(s: Seq<char>, pat: Seq<char>)
    ensures
        index_of(s, pat) is Some <==> contains(s, pat),
{
    lemma_index_of_from(s, pat, 0);
    if let Some(i) = index_of(s, pat) {
        assert(occurs_at(s, pat, i));
    }
}

/// Containment is transitive.
pub proof fn lemma_contains_within(a: Seq<char>, b: Seq<char>, c: Seq<char>)
    requires
        contains(a, b),
        contains(b, c),
    ensures
        contains(a, c),
{
    let i = choose|i: int| occurs_at(a, b, i);
    let j = choose|j: int| occurs_at(b, c, j);
    assert(a.subrange(i + j, i + j + c.len()) =~= b.subrange(j, j + c.len()));
    assert(occurs_at(a, c, i + j));
}

/// An occurrence at `i` with none before it is what `index_of` finds.
pub proof fn lemma_index_of_first(s: Seq<char>, pat: Seq<char>, i: int)
    requires
        occurs_at(s, pat, i),
        forall|j: int| 0 <= j < i ==> !occurs_at(s, pat, j),
    ensures
        index_of(s, pat) == Some(i),
{
    lemma_index_of_from(s, pat, 0);
}

/// The last occurrence found from `upto` down is an occurrence, with none
/// after it up to `upto`.
pub proof fn lemma_last_index_upto(s: Seq<char>, pat: Seq<char>, upto: int)
    ensures
        match last_index_upto(s, pat, upto) {
            Some(i) => 0 <= i <= upto && occurs_at(s, pat, i) && forall|j: int|
                i < j <= upto ==> !occurs_at(s, pat, j),
            None => forall|j: int| j <= upto ==> !occurs_at(s, pat, j),
        },
    decreases upto + 1,
{
    if upto >= 0 && !occurs_at(s, pat, upto) {
        lemma_last_index_upto(s, pat, upto - 1);
    }
}

/// The characters of `s`, in order.
pub fn chars_of(s: &str) -> (v: Vec<char>)
    ensures
        v@ == s@,
{
    let mut v: Vec<char> = Vec::new();
    for c in it: s.chars()
        invariant
            v@ == it.seq().take(it.index() as int),
    {
        v.push(c);
    }
    v
}

/// Whether `pat` occurs in `hay` at position `i`.
pub fn matches_at(hay: &Vec<char>, pat: &Vec<char>, i: usize) -> (r: bool)
    ensures
        r == occurs_at(hay@, pat@, i as int),
{
    if i > hay.len() || pat.len() > hay.len() - i {
        return false;
    }
    let mut j: usize = 0;
    while j < pat.len()
        invariant
            i + pat.len() <= hay.len(),
            j <= pat.len(),
            forall|k: int| 0 <= k < j ==> hay@[i + k] == pat@[k],
        decreases pat.len() - j,
    {
        if hay[i + j] != pat[j] {
            assert(hay@.subrange(i as int, i + pat.len())[j as int] != pat@[j as int]);
            return false;
        }
        j += 1;
    }
    assert(hay@.subrange(i as int, i + pat.len()) =~= pat@);
    true
}

/// The first position at or after `from` where `pat` occurs in `hay`.
pub fn find_from(hay: &Vec<char>, pat: &Vec<char>, from: usize) -> (r: Option<usize>)
    ensures
        index_view(r) == index_of_from(hay@, pat@, from as int),
{
    let mut i: usize = from;
    while i <= hay.len() && pat.len() <= hay.len() - i
        invariant
            from <= i,
            index_of_from(hay@, pat@, from as int) == index_of_from(hay@, pat@, i as int),
        decreases hay.len() - i,
    {
        if matches_at(hay, pat, i) {
            return Some(i);
        }
        if pat.len() == 0 {
            assert(hay@.subrange(i as int, i as int) =~= pat@);
        }
        i += 1;
    }
    None
}

/// The first position where `pat` occurs in `hay`.
pub fn find(hay: &Vec<char>, pat: &Vec<char>) -> (r: Option<usize>)
    ensures
        index_view(r) == index_of(hay@, pat@),
{
    find_from(hay, pat, 0)
}

/// The characters of `v` from `from` up to `to`.
pub fn slice_chars(v: &Vec<char>, from: usize, to: usize) -> (r: Vec<char>)
    requires
        from <= to <= v.len(),
    ensures
        r@ == v@.subrange(from as int, to as int),
{
    let mut r: Vec<char> = Vec::new();
    let mut i: usize = from;
    while i < to
        invariant
            from <= i <= to <= v.len(),
            r@ == v@.subrange(from as int, i as int),
        decreases to - i,
    {
        r.push(v[i]);
        assert(r@ =~= v@.subrange(from as int, i + 1));
        i += 1;
    }
    r
}

/// Relies on `String: FromIterator<char>`: collecting characters into a
/// string keeps them, in order.
#[verifier::external_body]
pub(crate) fn string_from_chars(v: &Vec<char>) -> (r: String)
    ensures
        r@ == v@,
{
    v.iter().collect()
}

/// What precedes the first `pat` in `hay` (all of it when `pat` is absent).
pub fn piece_before(hay: &Vec<char>, pat: &str) -> (r: Vec<char>)
    ensures
        r@ == before(hay@, pat@),
{
    let p = chars_of(pat);
    match find(hay, &p) {
        Some(i) => {
            proof {
                lemma_index_of_from(hay@, p@, 0);
            }
            let r = slice_chars(hay, 0, i);
            assert(r@ =~= hay@.take(i as int));
            r
        },
        None => slice_chars(hay, 0, hay.len()),
    }
}

/// What follows the first `pat` in `hay`, if it occurs.
pub fn piece_after(hay: &Vec<char>, pat: &str) -> (r: Option<Vec<char>>)
    ensures
        match r {
            Some(v) => after(hay@, pat@) == Some(v@),
            None => after(hay@, pat@) is None,
        },
{
    let p = chars_of(pat);
    match find(hay, &p) {
        Some(i) => {
            proof {
                lemma_index_of_from(hay@, p@, 0);
                assert(occurs_at(hay@, p@, i as int));
            }
            let n = hay.len();
            assert(i + p@.len() <= n);
            let r = slice_chars(hay, i + p.len(), n);
            assert(r@ =~= hay@.skip(i + p@.len()));
            Some(r)
        },
        None => None,
    }
}

/// The text between the first and the second `pat` in `hay` (or its end).
pub fn second_piece_of(hay: &Vec<char>, pat: &str) -> (r: Option<Vec<char>>)
    ensures
        match r {
            Some(v) => second_piece(hay@, pat@) == Some(v@),
            None => second_piece(hay@, pat@) is None,
        },
{
    match piece_after(hay, pat) {
        Some(rest) => Some(piece_before(&rest, pat)),
        None => None,
    }
}

/// The last position where `pat` occurs in `hay`.
pub fn find_last(hay: &Vec<char>, pat: &Vec<char>) -> (r: Option<usize>)
    ensures
        index_view(r) == last_index_of(hay@, pat@),
{
    if pat.len() > hay.len() {
        return None;
    }
    let mut i: usize = hay.len() - pat.len();
    loop
        invariant
            pat.len() <= hay.len(),
            i <= hay.len() - pat.len(),
            last_index_of(hay@, pat@) == last_index_upto(hay@, pat@, i as int),
        decreases i,
    {
        if matches_at(hay, pat, i) {
            return Some(i);
        }
        if i == 0 {
            return None;
        }
        i -= 1;
    }
}

/// Whether `hay` holds `pat` anywhere.
pub fn holds(hay: &Vec<char>, pat: &str) -> (r: bool)
    ensures
        r == contains(hay@, pat@),
{
    let p = chars_of(pat);
    let found = find(hay, &p);
    proof {
        lemma_index_of_contains(hay@, p@);
    }
    found.is_some()
}

/// Whether `hay` starts with `pat`.
pub fn has_prefix(hay: &Vec<char>, pat: &str) -> (r: bool)
    ensures
        r == starts_with(hay@, pat@),
{
    let p = chars_of(pat);
    matches_at(hay, &p, 0)
}

/// Whether `hay` ends with `pat`.
pub fn has_suffix(hay: &Vec<char>, pat: &Vec<char>) -> (r: bool)
    ensures
        r == ends_with(hay@, pat@),
{
    if pat.len() > hay.len() {
        return false;
    }
    matches_at(hay, pat, hay.len() - pat.len())
}

/// A whitespace character in Unicode's sense (`char::is_whitespace`).
pub open spec fn is_space(c: char) -> bool {
    ('\u{9}' <= c && c <= '\u{d}') || c == ' ' || c == '\u{85}' || c == '\u{a0}' || c
        == '\u{1680}' || ('\u{2000}' <= c && c <= '\u{200a}') || c == '\u{2028}' || c
        == '\u{2029}' || c == '\u{202f}' || c == '\u{205f}' || c == '\u{3000}'
}

/// `s` without its leading whitespace.
pub open spec fn trim_start(s: Seq<char>) -> Seq<char>
    decreases s.len(),
{
    if s.len() > 0 && is_space(s[0]) {
        trim_start(s.skip(1))
    } else {
        s
    }
}

/// `s` without its trailing whitespace.
pub open spec fn trim_end(s: Seq<char>) -> Seq<char>
    decreases s.len(),
{
    if s.len() > 0 && is_space(s.last()) {
        trim_end(s.drop_last())
    } else {
        s
    }
}

/// `s` without leading and trailing whitespace.
pub open spec fn trimmed(s: Seq<char>) -> Seq<char> {
    trim_end(trim_start(s))
}

fn space(c: char) -> (r: bool)
    ensures
        r == is_space(c),
{
    ('\u{9}' <= c && c <= '\u{d}') || c == ' ' || c == '\u{85}' || c == '\u{a0}' || c
        == '\u{1680}' || ('\u{2000}' <= c && c <= '\u{200a}') || c == '\u{2028}' || c
        == '\u{2029}' || c == '\u{202f}' || c == '\u{205f}' || c == '\u{3000}'
}

/// `s` without leading and trailing whitespace, as `str::trim` gives it.
pub fn trim(s: &str) -> (r: String)
    ensures
        r@ == trimmed(s@),
{
    let v = chars_of(s);
    let n = v.len();
    let mut a: usize = 0;
    assert(v@.skip(0) =~= v@);
    while a < n && space(v[a])
        invariant
            a <= n,
            n == v.len(),
            trim_start(v@) == trim_start(v@.skip(a as int)),
        decreases n - a,
    {
        assert(v@.skip(a as int).skip(1) =~= v@.skip(a + 1));
        a += 1;
    }
    assert(trim_start(v@) == v@.skip(a as int));
    let mut b: usize = n;
    assert(v@.subrange(a as int, n as int) =~= v@.skip(a as int));
    while b > a && space(v[b - 1])
        invariant
            a <= b <= n,
            n == v.len(),
            trim_end(v@.skip(a as int)) == trim_end(v@.subrange(a as int, b as int)),
        decreases b,
    {
        assert(v@.subrange(a as int, b as int).drop_last() =~= v@.subrange(a as int, b - 1));
        b -= 1;
    }
    let r = slice_chars(&v, a, b);
    string_from_chars(&r)
}

} // verus!
