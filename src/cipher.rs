//! The obfuscated payload that some interstitial pages embed in a script
//! variable: a shuffled, digit-masked base64 text whose decoded body carries
//! the destination after a `dest=` marker.
use vstd::prelude::*;
use vstd::utf8::{decode_utf8, encode_utf8, valid_utf8};

use crate::text::{after, chars_of, find, index_of, lemma_index_of_first,
    lemma_index_of_from, occurs_at, slice_chars};

verus! {

broadcast use {vstd::utf8::encode_utf8_valid_utf8, vstd::utf8::encode_utf8_decode_utf8};

/// An ASCII decimal digit.
pub open spec fn is_digit(c: char) -> bool {
    '0' <= c && c <= '9'
}

pub open spec fn digit_value(c: char) -> u32 {
    (c as u32 - 48) as u32
}

pub open spec fn digit_char(x: u32) -> char {
    ((48 + x) as u8) as char
}

/// The first digit masked by the second: their values' exclusive or, when
/// that is a single digit; otherwise the first digit unchanged.
pub open spec fn xor_digit(a: char, b: char) -> char {
    let x = digit_value(a) ^ digit_value(b);
    if x < 10 {
        digit_char(x)
    } else {
        a
    }
}

/// How many digits stand before position `i`.
pub open spec fn digits_before(s: Seq<char>, i: int) -> nat
    decreases i,
{
    if i <= 0 {
        0
    } else {
        digits_before(s, i - 1) + if is_digit(s[i - 1]) {
            1nat
        } else {
            0nat
        }
    }
}

/// The first digit at or after `from`.
pub open spec fn next_digit(s: Seq<char>, from: int) -> Option<int>
    decreases s.len() - from,
{
    if from < 0 || from >= s.len() {
        None
    } else if is_digit(s[from]) {
        Some(from)
    } else {
        next_digit(s, from + 1)
    }
}

/// Step 3 of the decoding at position `i`: the digits pair up in order; the
/// first of each pair is masked by the second, which stays as it is.
pub open spec fn fixed_at(s: Seq<char>, i: int) -> char {
    if is_digit(s[i]) && digits_before(s, i) % 2 == 0 {
        match next_digit(s, i + 1) {
            Some(j) => xor_digit(s[i], s[j]),
            None => s[i],
        }
    } else {
        s[i]
    }
}

/// The digit pairs of `s` resolved.
pub open spec fn xor_fix(s: Seq<char>) -> Seq<char> {
    Seq::new(s.len(), |i: int| fixed_at(s, i))
}

/// Steps 1 and 2 of the decoding: the characters at even positions, in
/// order, then those at odd positions, from the last back. This is the
/// deque construction of the algorithm: see
/// `lemma_unshuffle_is_deque_rotation`.
pub open spec fn unshuffle(x: Seq<char>) -> Seq<char> {
    let m = x.len() / 2;
    Seq::new(x.len(), |k: int| if k < m { x[2 * k] } else { x[2 * (x.len() - 1 - k) + 1] })
}

/// The deque after the first `k` character pairs of `x`: each pair pushes
/// its first character to the back and its second to the front.
pub open spec fn deque_after(x: Seq<char>, k: int) -> Seq<char>
    decreases k,
{
    if k <= 0 {
        Seq::empty()
    } else {
        seq![x[2 * (k - 1) + 1]] + deque_after(x, k - 1) + seq![x[2 * (k - 1)]]
    }
}

/// `d` rotated left by `m` places.
pub open spec fn rotate_left(d: Seq<char>, m: int) -> Seq<char> {
    d.skip(m) + d.take(m)
}

proof fn lemma_deque_after(x: Seq<char>, k: int)
    requires
        0 <= k,
        2 * k <= x.len(),
    ensures
        deque_after(x, k).len() == 2 * k,
        forall|j: int| 0 <= j < k ==> #[trigger] deque_after(x, k)[j] == x[2 * (k - 1 - j) + 1],
        forall|i: int| 0 <= i < k ==> #[trigger] deque_after(x, k)[k + i] == x[2 * i],
    decreases k,
{
    if k > 0 {
        lemma_deque_after(x, k - 1);
        let d = deque_after(x, k - 1);
        let e = deque_after(x, k);
        assert(e == seq![x[2 * (k - 1) + 1]] + d + seq![x[2 * (k - 1)]]);
        assert forall|j: int| 0 <= j < k implies #[trigger] e[j] == x[2 * (k - 1 - j) + 1] by {
            if j > 0 {
                assert(e[j] == d[j - 1]);
            }
        }
        assert forall|i: int| 0 <= i < k implies #[trigger] e[k + i] == x[2 * i] by {
            if i < k - 1 {
                assert(e[k + i] == d[(k - 1) + i]);
            }
        }
    }
}

/// Steps 1 and 2 as the algorithm states them, pairs pushed onto a deque
/// and the deque rotated left by half its length, give `unshuffle`.
pub proof fn lemma_unshuffle_is_deque_rotation(x: Seq<char>)
    requires
        x.len() % 2 == 0,
    ensures
        rotate_left(deque_after(x, (x.len() / 2) as int), (x.len() / 2) as int) == unshuffle(x),
{
    let m = x.len() / 2;
    lemma_deque_after(x, m as int);
    let d = deque_after(x, m as int);
    let r = rotate_left(d, m as int);
    assert forall|k: int| 0 <= k < x.len() implies #[trigger] r[k] == unshuffle(x)[k] by {
        if k < m {
            assert(r[k] == d[m + k]);
        } else {
            assert(r[k] == d[k - m]);
        }
    }
    assert(r =~= unshuffle(x));
}

/// The base64 text hidden in an obfuscated value of even length.
pub open spec fn unscramble(y: Seq<char>) -> Seq<char> {
    xor_fix(unshuffle(y))
}

/// What base64's standard engine decodes `text` to, if it is valid base64.
pub uninterp spec fn base64_decoded(text: Seq<char>) -> Option<Seq<u8>>;

/// What `percent_encoding` makes of `s`: percent-decoded, then read as
/// UTF-8 with invalid sequences replaced.
pub uninterp spec fn percent_decoded(s: Seq<char>) -> Seq<char>;

/// The decoded body without its 16-byte header and trailer, as text. The
/// body must be UTF-8 and the two cuts must fall between characters: that
/// is, each of the three parts is UTF-8 on its own.
pub open spec fn payload_text(b: Seq<u8>) -> Option<Seq<char>> {
    let n = b.len() as int;
    if n >= 32 && valid_utf8(b.subrange(0, 16)) && valid_utf8(b.subrange(16, n - 16))
        && valid_utf8(b.subrange(n - 16, n)) {
        Some(decode_utf8(b.subrange(16, n - 16)))
    } else {
        None
    }
}

/// The destination that a payload text names: all that follows its first
/// `dest=`, percent-decoded.
pub open spec fn destination_in(text: Seq<char>) -> Option<Seq<char>> {
    match after(text, "dest="@) {
        Some(rest) => Some(percent_decoded(rest)),
        None => None,
    }
}

/// The destination hidden in an obfuscated value.
/// The destination text hidden in an obfuscated value, before percent-decoding.
pub open spec fn obfuscated_destination_text(y: Seq<char>) -> Option<Seq<char>> {
    if y.len() % 2 != 0 {
        None
    } else {
        match base64_decoded(unscramble(y)) {
            Some(b) => match payload_text(b) {
                Some(t) => after(t, "dest="@),
                None => None,
            },
            None => None,
        }
    }
}

/// Text in which no `%` stands, which percent-decoding leaves as it is.
pub open spec fn percent_free(s: Seq<char>) -> bool {
    forall|i: int| 0 <= i < s.len() ==> s[i] != '%'
}

pub open spec fn obfuscated_destination(y: Seq<char>) -> Option<Seq<char>> {
    if y.len() % 2 != 0 {
        None
    } else {
        match base64_decoded(unscramble(y)) {
            Some(b) => match payload_text(b) {
                Some(t) => destination_in(t),
                None => None,
            },
            None => None,
        }
    }
}

/// Relies on base64's standard engine (`base64::decode`): the bytes that
/// `text` encodes, or nothing when it is not valid base64.
#[verifier::external_body]
fn decode_base64(text: &Vec<char>) -> (r: Option<Vec<u8>>)
    ensures
        match r {
            Some(b) => base64_decoded(text@) == Some(b@),
            None => base64_decoded(text@) is None,
        },
{
    base64::Engine::decode(
        &base64::engine::general_purpose::STANDARD,
        text.iter().collect::<String>(),
    ).ok()
}

/// Relies on `std::str::from_utf8`, which accepts exactly the valid UTF-8
/// byte sequences.
#[verifier::external_body]
fn utf8_text(b: &[u8]) -> (r: Option<&str>)
    ensures
        r is Some <==> valid_utf8(b@),
        r matches Some(s) ==> encode_utf8(s@) == b@,
{
    std::str::from_utf8(b).ok()
}

/// Relies on `percent_encoding::percent_decode_str` and `decode_utf8_lossy`:
/// only `%` followed by two hex digits is decoded, so text without `%`
/// keeps its bytes, which being UTF-8 read back as the same text.
#[verifier::external_body]
fn percent_decode_text(s: &Vec<char>) -> (r: String)
    ensures
        r@ == percent_decoded(s@),
        percent_free(s@) ==> r@ == s@,
{
    percent_encoding::percent_decode_str(&s.iter().collect::<String>()).decode_utf8_lossy().into_owned()
}

fn digit_of(c: char) -> (r: bool)
    ensures
        r == is_digit(c),
{
    '0' <= c && c <= '9'
}

fn xor_digit_of(a: char, b: char) -> (r: char)
    requires
        is_digit(a),
        is_digit(b),
    ensures
        r == xor_digit(a, b),
{
    let x: u32 = (a as u32 - 48) ^ (b as u32 - 48);
    if x < 10 {
        (48u8 + x as u8) as char
    } else {
        a
    }
}

proof fn lemma_next_digit(s: Seq<char>, from: int)
    requires
        0 <= from,
    ensures
        match next_digit(s, from) {
            Some(j) => from <= j < s.len() && is_digit(s[j]) && forall|k: int|
                from <= k < j ==> !is_digit(s[k]),
            None => forall|k: int| from <= k < s.len() ==> !is_digit(s[k]),
        },
    decreases s.len() - from,
{
    if from < s.len() && !is_digit(s[from]) {
        lemma_next_digit(s, from + 1);
    }
}

proof fn lemma_next_digit_is(s: Seq<char>, from: int, j: int)
    requires
        0 <= from <= j < s.len(),
        is_digit(s[j]),
        forall|k: int| from <= k < j ==> !is_digit(s[k]),
    ensures
        next_digit(s, from) == Some(j),
{
    lemma_next_digit(s, from);
}

proof fn lemma_digits_between(s: Seq<char>, p: int, q: int)
    requires
        0 <= p <= q <= s.len(),
        forall|k: int| p <= k < q ==> !is_digit(s[k]),
    ensures
        digits_before(s, q) == digits_before(s, p),
    decreases q - p,
{
    if q > p {
        lemma_digits_between(s, p, q - 1);
    }
}

/// `fixed_at` where only pairs completed before position `i` count.
spec fn fixed_before(s: Seq<char>, k: int, i: int) -> char {
    if is_digit(s[k]) && digits_before(s, k) % 2 == 0 {
        match next_digit(s, k + 1) {
            Some(j) => if j < i {
                xor_digit(s[k], s[j])
            } else {
                s[k]
            },
            None => s[k],
        }
    } else {
        s[k]
    }
}

/// Resolves the digit pairs of `u`.
fn fix_digits(u: &Vec<char>) -> (w: Vec<char>)
    ensures
        w@ == xor_fix(u@),
{
    let n = u.len();
    let mut w = slice_chars(u, 0, n);
    let mut pending: Option<usize> = None;
    let mut i: usize = 0;
    assert(w@ =~= u@);
    while i < n
        invariant
            n == u.len(),
            w@.len() == n,
            i <= n,
            pending is None <==> digits_before(u@, i as int) % 2 == 0,
            pending matches Some(a) ==> (a < i && is_digit(u@[a as int]) && digits_before(
                u@,
                a as int,
            ) % 2 == 0 && forall|k: int| a < k < i ==> !is_digit(u@[k])),
            forall|k: int| 0 <= k < i ==> w@[k] == fixed_before(u@, k, i as int),
            forall|k: int| i <= k < n ==> w@[k] == u@[k],
        decreases n - i,
    {
        let c = u[i];
        let ghost s = u@;
        let ghost ii = i as int;
        let ghost w0 = w@;
        proof {
            assert(digits_before(s, ii + 1) == digits_before(s, ii) + if is_digit(s[ii]) {
                1nat
            } else {
                0nat
            });
        }
        if digit_of(c) {
            match pending {
                None => {
                    pending = Some(i);
                    assert forall|k: int| 0 <= k < ii + 1 implies w@[k] == fixed_before(
                        s,
                        k,
                        ii + 1,
                    ) by {
                        if k < ii && is_digit(s[k]) && digits_before(s, k) % 2 == 0 {
                            lemma_next_digit(s, k + 1);
                            if next_digit(s, k + 1) == Some(ii) {
                                lemma_digits_between(s, k + 1, ii);
                                assert(digits_before(s, k + 1) == digits_before(s, k) + 1);
                            }
                        }
                        if k == ii {
                            lemma_next_digit(s, ii + 1);
                        }
                    }
                },
                Some(a) => {
                    let x = xor_digit_of(u[a], c);
                    w.set(a, x);
                    pending = None;
                    proof {
                        lemma_next_digit_is(s, a + 1, ii);
                    }
                    assert forall|k: int| 0 <= k < ii + 1 implies w@[k] == fixed_before(
                        s,
                        k,
                        ii + 1,
                    ) by {
                        if k != a && k < ii && is_digit(s[k]) && digits_before(s, k) % 2 == 0 {
                            lemma_next_digit(s, k + 1);
                            if next_digit(s, k + 1) == Some(ii) {
                                if k < a {
                                    assert(!is_digit(s[a as int]));
                                }
                            }
                        }
                        if k == ii {
                            lemma_next_digit(s, ii + 1);
                        }
                    }
                },
            }
        } else {
            assert forall|k: int| 0 <= k < ii + 1 implies w@[k] == fixed_before(s, k, ii + 1) by {
                if k < ii && is_digit(s[k]) && digits_before(s, k) % 2 == 0 {
                    lemma_next_digit(s, k + 1);
                }
            }
        }
        i += 1;
    }
    assert forall|k: int| 0 <= k < n implies w@[k] == fixed_at(u@, k) by {
        lemma_next_digit(u@, k + 1);
    }
    assert(w@ =~= xor_fix(u@));
    w
}

/// Undoes the shuffle of an obfuscated value of even length.
fn unshuffle_chars(x: &Vec<char>) -> (r: Vec<char>)
    requires
        x.len() % 2 == 0,
    ensures
        r@ == unshuffle(x@),
{
    let n = x.len();
    let m = n / 2;
    let mut r: Vec<char> = Vec::new();
    let mut k: usize = 0;
    while k < n
        invariant
            n == x.len(),
            m == n / 2,
            n % 2 == 0,
            k <= n,
            r@ == unshuffle(x@).take(k as int),
        decreases n - k,
    {
        let idx = if k < m {
            2 * k
        } else {
            2 * (n - 1 - k) + 1
        };
        r.push(x[idx]);
        assert(r@ =~= unshuffle(x@).take(k + 1));
        k += 1;
    }
    assert(r@ =~= unshuffle(x@));
    r
}

/// The bytes of `b` from `from` up to `to`.
fn byte_range(b: &Vec<u8>, from: usize, to: usize) -> (r: Vec<u8>)
    requires
        from <= to <= b.len(),
    ensures
        r@ == b@.subrange(from as int, to as int),
{
    let mut r: Vec<u8> = Vec::new();
    let mut i: usize = from;
    while i < to
        invariant
            from <= i <= to <= b.len(),
            r@ == b@.subrange(from as int, i as int),
        decreases to - i,
    {
        r.push(b[i]);
        assert(r@ =~= b@.subrange(from as int, i + 1));
        i += 1;
    }
    r
}

/// The middle text of a decoded body, between its 16-byte header and trailer.
fn payload_text_of(b: &Vec<u8>) -> (r: Option<Vec<char>>)
    ensures
        match r {
            Some(t) => payload_text(b@) == Some(t@),
            None => payload_text(b@) is None,
        },
{
    let n = b.len();
    if n < 32 {
        return None;
    }
    let head = byte_range(b, 0, 16);
    let middle = byte_range(b, 16, n - 16);
    let tail = byte_range(b, n - 16, n);
    if utf8_text(head.as_slice()).is_none() || utf8_text(tail.as_slice()).is_none() {
        return None;
    }
    match utf8_text(middle.as_slice()) {
        Some(text) => {
            let chars = chars_of(text);
            assert(decode_utf8(encode_utf8(text@)) == text@);
            Some(chars)
        },
        None => None,
    }
}

/// The base64 text hidden in an obfuscated value: the shuffle undone and
/// the digit pairs resolved. Nothing when the value has odd length.
pub fn unscramble_text(y: &Vec<char>) -> (r: Option<Vec<char>>)
    ensures
        match r {
            Some(t) => y@.len() % 2 == 0 && t@ == unscramble(y@),
            None => y@.len() % 2 != 0,
        },
{
    if y.len() % 2 != 0 {
        return None;
    }
    let shuffled = unshuffle_chars(y);
    Some(fix_digits(&shuffled))
}

/// The destination that a decoded body names: its middle text, between the
/// 16-byte header and trailer, percent-decoded from its first `dest=` on.
pub fn payload_destination(b: &Vec<u8>) -> (r: Option<String>)
    ensures
        crate::text::text_view(r) == match payload_text(b@) {
            Some(t) => destination_in(t),
            None => None,
        },
        payload_text(b@) matches Some(t) ==> (after(t, "dest="@) matches Some(e) ==> (
        percent_free(e) ==> crate::text::text_view(r) == Some(e))),
{
    let body = match payload_text_of(b) {
        Some(t) => t,
        None => return None,
    };
    let marker = chars_of("dest=");
    match find(&body, &marker) {
        Some(i) => {
            proof {
                lemma_index_of_from(body@, marker@, 0);
                assert(occurs_at(body@, marker@, i as int));
            }
            let n = body.len();
            let rest = slice_chars(&body, i + marker.len(), n);
            assert(rest@ =~= body@.skip(i + marker@.len()));
            Some(percent_decode_text(&rest))
        },
        None => None,
    }
}

/// The destination hidden in an obfuscated value (the `ysmm` variable of
/// the page): undo the shuffle, resolve the digit pairs, base64-decode,
/// strip the 16-byte header and trailer, and percent-decode what follows
/// `dest=`. Nothing when any step fails, or when the value has odd length.
pub fn decode_ysmm(y: &Vec<char>) -> (r: Option<String>)
    ensures
        crate::text::text_view(r) == obfuscated_destination(y@),
        obfuscated_destination_text(y@) matches Some(e) ==> (percent_free(e)
            ==> crate::text::text_view(r) == Some(e)),
{
    let text = match unscramble_text(y) {
        Some(t) => t,
        None => return None,
    };
    match decode_base64(&text) {
        Some(bytes) => payload_destination(&bytes),
        None => None,
    }
}

/// The shuffle that `unshuffle` undoes: position `2k` holds `z[k]` and
/// position `2k + 1` holds `z[n - 1 - k]`.
pub open spec fn shuffle(z: Seq<char>) -> Seq<char> {
    Seq::new(z.len(), |i: int| if i % 2 == 0 { z[i / 2] } else { z[z.len() - 1 - i / 2] })
}

/// The obfuscation of a base64 text: its digit pairs masked, then shuffled.
pub open spec fn scramble(t: Seq<char>) -> Seq<char> {
    shuffle(xor_fix(t))
}

proof fn lemma_unshuffle_shuffle(z: Seq<char>)
    requires
        z.len() % 2 == 0,
    ensures
        unshuffle(shuffle(z)) == z,
{
    let y = shuffle(z);
    let n = z.len() as int;
    assert forall|k: int| 0 <= k < n implies #[trigger] unshuffle(y)[k] == z[k] by {
        if k < n / 2 {
            assert((2 * k) % 2 == 0 && (2 * k) / 2 == k);
        } else {
            let i = 2 * (n - 1 - k) + 1;
            assert(i % 2 == 1 && i / 2 == n - 1 - k);
        }
    }
    assert(unshuffle(y) =~= z);
}

proof fn lemma_xor_digit_twice(a: char, b: char)
    requires
        is_digit(a),
        is_digit(b),
    ensures
        is_digit(xor_digit(a, b)),
        xor_digit(xor_digit(a, b), b) == a,
{
    let va = digit_value(a);
    let vb = digit_value(b);
    assert(va < 10 && vb < 10);
    let x = va ^ vb;
    if x < 10 {
        let c = digit_char(x);
        assert(c as u32 == 48 + x);
        assert(digit_value(c) == x);
        assert(x ^ vb == va) by (bit_vector)
            requires
                x == va ^ vb,
        ;
        assert(digit_char(va) as u32 == a as u32);
    } else {
        assert(va ^ vb >= 10);
    }
}

proof fn lemma_fix_keeps_digits(s: Seq<char>)
    ensures
        forall|i: int| 0 <= i < s.len() ==> is_digit(#[trigger] xor_fix(s)[i]) == is_digit(s[i]),
{
    assert forall|i: int| 0 <= i < s.len() implies is_digit(#[trigger] xor_fix(s)[i]) == is_digit(
        s[i],
    ) by {
        if is_digit(s[i]) && digits_before(s, i) % 2 == 0 {
            lemma_next_digit(s, i + 1);
            if let Some(j) = next_digit(s, i + 1) {
                lemma_xor_digit_twice(s[i], s[j]);
            }
        }
    }
}

proof fn lemma_same_digits(s: Seq<char>, t: Seq<char>)
    requires
        s.len() == t.len(),
        forall|i: int| 0 <= i < s.len() ==> is_digit(s[i]) == is_digit(t[i]),
    ensures
        forall|i: int| 0 <= i <= s.len() ==> digits_before(s, i) == digits_before(t, i),
        forall|i: int| 0 <= i ==> next_digit(s, i) == next_digit(t, i),
{
    assert forall|i: int| 0 <= i <= s.len() implies digits_before(s, i) == digits_before(t, i) by {
        lemma_digits_before_same(s, t, i);
    }
    assert forall|i: int| 0 <= i implies next_digit(s, i) == next_digit(t, i) by {
        lemma_next_digit_same(s, t, i);
    }
}

proof fn lemma_digits_before_same(s: Seq<char>, t: Seq<char>, i: int)
    requires
        s.len() == t.len(),
        0 <= i <= s.len(),
        forall|k: int| 0 <= k < s.len() ==> is_digit(s[k]) == is_digit(t[k]),
    ensures
        digits_before(s, i) == digits_before(t, i),
    decreases i,
{
    if i > 0 {
        lemma_digits_before_same(s, t, i - 1);
    }
}

proof fn lemma_next_digit_same(s: Seq<char>, t: Seq<char>, from: int)
    requires
        s.len() == t.len(),
        0 <= from,
        forall|k: int| 0 <= k < s.len() ==> is_digit(s[k]) == is_digit(t[k]),
    ensures
        next_digit(s, from) == next_digit(t, from),
    decreases s.len() - from,
{
    if from < s.len() {
        lemma_next_digit_same(s, t, from + 1);
    }
}

/// Resolving the digit pairs twice gives the text back.
pub proof fn lemma_xor_fix_involution(s: Seq<char>)
    ensures
        xor_fix(xor_fix(s)) == s,
{
    let f = xor_fix(s);
    lemma_fix_keeps_digits(s);
    lemma_same_digits(f, s);
    assert forall|i: int| 0 <= i < s.len() implies #[trigger] xor_fix(f)[i] == s[i] by {
        if is_digit(s[i]) && digits_before(s, i) % 2 == 0 {
            lemma_next_digit(s, i + 1);
            if let Some(j) = next_digit(s, i + 1) {
                lemma_digits_between(s, i + 1, j);
                assert(digits_before(s, j) == digits_before(s, i) + 1);
                assert(f[j] == s[j]);
                lemma_xor_digit_twice(s[i], s[j]);
            }
        }
    }
    assert(xor_fix(f) =~= s);
}

/// Decoding undoes the documented encoding. Take a body of a 16-byte UTF-8
/// header, a text holding its first `dest=` right before the URL, and a
/// 16-byte UTF-8 trailer; base64-encode it (any even-length text `t` that
/// decodes to it), mask and shuffle: the result decodes to the URL,
/// percent-decoded. Its destination text is the URL itself, so by the
/// contract of `decode_ysmm` a URL without `%` comes back exactly.
pub proof fn lemma_scrambled_payload_decodes(
    t: Seq<char>,
    head: Seq<u8>,
    prefix: Seq<char>,
    url: Seq<char>,
    tail: Seq<u8>,
)
    requires
        t.len() % 2 == 0,
        head.len() == 16,
        tail.len() == 16,
        valid_utf8(head),
        valid_utf8(tail),
        index_of(prefix + "dest="@, "dest="@) == Some(prefix.len() as int),
        base64_decoded(t) == Some(head + encode_utf8(prefix + "dest="@ + url) + tail),
    ensures
        obfuscated_destination(scramble(t)) == Some(percent_decoded(url)),
        obfuscated_destination_text(scramble(t)) == Some(url),
{
    let marker = "dest="@;
    let z = xor_fix(t);
    lemma_unshuffle_shuffle(z);
    lemma_xor_fix_involution(t);
    assert(unscramble(scramble(t)) == t);
    let text = prefix + marker + url;
    let body = encode_utf8(text);
    let b = head + body + tail;
    let n = b.len() as int;
    assert(b.subrange(0, 16) =~= head);
    assert(b.subrange(16, n - 16) =~= body);
    assert(b.subrange(n - 16, n) =~= tail);
    assert(payload_text(b) == Some(text));
    let p = prefix.len() as int;
    lemma_index_of_from(prefix + marker, marker, 0);
    assert(text.subrange(p, p + marker.len()) =~= marker);
    assert forall|j: int| 0 <= j < p implies !occurs_at(text, marker, j) by {
        let pm = prefix + marker;
        if occurs_at(text, marker, j) {
            assert(text.subrange(j, j + marker.len()) =~= pm.subrange(j, j + marker.len()));
            assert(occurs_at(pm, marker, j));
        }
    }
    lemma_index_of_first(text, marker, p);
    assert(text.skip(p + marker.len()) =~= url);
}

} // verus!
