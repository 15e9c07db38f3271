//! Character-level text utilities with their specifications: decimal numbers,
//! whitespace, prefixes, line splitting and joining.

use vstd::prelude::*;
use vstd::string::{StrSliceExecFns, StringExecFns};
use vstd::std_specs::iter::IteratorSpec;

verus! {

// ---------------------------------------------------------------------------
// Trusted bridges to std string operations
// ---------------------------------------------------------------------------

/// The characters of `s`, in order.
pub fn chars_of(s: &str) -> (res: Vec<char>)
    ensures
        res@ == s@,
{
    broadcast use vstd::string::axiom_spec_iter, vstd::string::next_postcondition;
    let mut it = s.chars();
    let mut out: Vec<char> = Vec::new();
    loop
        invariant
            out@ + IteratorSpec::remaining(&it) == s@,
            IteratorSpec::obeys_prophetic_iter_laws(&it),
            IteratorSpec::decrease(&it) is Some,
        ensures
            out@ == s@,
        decreases IteratorSpec::decrease(&it)->0,
    {
        match it.next() {
            Some(c) => {
                out.push(c);
                assert(out@ + IteratorSpec::remaining(&it) =~= s@);
            },
            None => {
                assert(out@ =~= s@);
                break;
            },
        }
    }
    out
}

/// `String::push`: appends one character at the end.
#[verifier::external_body]
pub fn push_char(s: &mut String, c: char)
    ensures
        final(s)@ == old(s)@.push(c),
{
    s.push(c)
}

/// Appends a string slice at the end.
pub fn push_str(s: &mut String, t: &str)
    ensures
        final(s)@ == old(s)@ + t@,
{
    s.append(t);
}

/// A fresh string holding the given characters.
pub fn string_from_chars(cs: &Vec<char>) -> (res: String)
    ensures
        res@ == cs@,
{
    let mut out = String::new();
    let mut i: usize = 0;
    while i < cs.len()
        invariant
            i <= cs.len(),
            out@ == cs@.take(i as int),
        decreases cs.len() - i,
    {
        push_char(&mut out, cs[i]);
        i = i + 1;
        assert(out@ =~= cs@.take(i as int));
    }
    assert(cs@.take(cs.len() as int) =~= cs@);
    out
}

/// A fresh string holding the characters of `s`.
pub fn string_of(s: &str) -> (res: String)
    ensures
        res@ == s@,
{
    String::from_str(s)
}

/// Whether two string slices hold the same characters.
pub fn str_eq(a: &str, b: &str) -> (res: bool)
    ensures
        res == (a@ == b@),
{
    let x = chars_of(a);
    let y = chars_of(b);
    seq_eq(&x, &y)
}

/// Whether two character vectors are equal.
pub fn seq_eq(x: &Vec<char>, y: &Vec<char>) -> (res: bool)
    ensures
        res == (x@ == y@),
{
    if x.len() != y.len() {
        return false;
    }
    let mut i: usize = 0;
    while i < x.len()
        invariant
            i <= x.len(),
            x.len() == y.len(),
            forall|j: int| 0 <= j < i ==> x@[j] == y@[j],
        decreases x.len() - i,
    {
        if x[i] != y[i] {
            return false;
        }
        i = i + 1;
    }
    assert(x@ =~= y@);
    true
}

// ---------------------------------------------------------------------------
// Character classes
// ---------------------------------------------------------------------------

/// Unicode `White_Space`, the property behind `char::is_whitespace`.
pub open spec fn is_ws(c: char) -> bool {
    let u = c as u32;
    ||| 9 <= u <= 13
    ||| u == 32
    ||| u == 0x85
    ||| u == 0xa0
    ||| u == 0x1680
    ||| 0x2000 <= u <= 0x200a
    ||| u == 0x2028
    ||| u == 0x2029
    ||| u == 0x202f
    ||| u == 0x205f
    ||| u == 0x3000
}

pub fn is_whitespace(c: char) -> (res: bool)
    ensures
        res == is_ws(c),
{
    let u = c as u32;
    (9 <= u && u <= 13) || u == 32 || u == 0x85 || u == 0xa0 || u == 0x1680 || (0x2000 <= u && u
        <= 0x200a) || u == 0x2028 || u == 0x2029 || u == 0x202f || u == 0x205f || u == 0x3000
}

pub open spec fn is_digit(c: char) -> bool {
    '0' <= c <= '9'
}

pub open spec fn is_ascii_alpha(c: char) -> bool {
    ('a' <= c <= 'z') || ('A' <= c <= 'Z')
}

pub open spec fn is_ascii_alnum(c: char) -> bool {
    is_ascii_alpha(c) || is_digit(c)
}

pub fn is_ascii_alphanumeric(c: char) -> (res: bool)
    ensures
        res == is_ascii_alnum(c),
{
    ('a' <= c && c <= 'z') || ('A' <= c && c <= 'Z') || ('0' <= c && c <= '9')
}

/// `char::to_ascii_lowercase`: ASCII capitals become small letters, all else stays.
pub open spec fn lower_char(c: char) -> char {
    if 'A' <= c <= 'Z' {
        (((c as u32) + 32) as u8) as char
    } else {
        c
    }
}

pub fn to_ascii_lower(c: char) -> (res: char)
    ensures
        res == lower_char(c),
{
    if 'A' <= c && c <= 'Z' {
        let u: u32 = (c as u32) + 32;
        (u as u8) as char
    } else {
        c
    }
}

pub open spec fn lower_seq(s: Seq<char>) -> Seq<char> {
    s.map_values(|c: char| lower_char(c))
}

// ---------------------------------------------------------------------------
// Decimal numbers
// ---------------------------------------------------------------------------

pub open spec fn digit_char(d: int) -> char {
    if d == 0 {
        '0'
    } else if d == 1 {
        '1'
    } else if d == 2 {
        '2'
    } else if d == 3 {
        '3'
    } else if d == 4 {
        '4'
    } else if d == 5 {
        '5'
    } else if d == 6 {
        '6'
    } else if d == 7 {
        '7'
    } else if d == 8 {
        '8'
    } else {
        '9'
    }
}

pub open spec fn digit_value(c: char) -> int {
    (c as u32) - 48
}

/// The decimal notation of `n`, without sign or leading zeros.
pub open spec fn decimal(n: nat) -> Seq<char>
    decreases n,
{
    if n < 10 {
        seq![digit_char(n as int)]
    } else {
        decimal(n / 10).push(digit_char((n % 10) as int))
    }
}

/// The decimal notation of `n` is a non-empty run of digits whose value is `n`.
pub proof fn lemma_decimal_digits(n: nat)
    ensures
        decimal(n).len() > 0,
        all_digits(decimal(n)),
        digits_value(decimal(n)) == n,
    decreases n,
{
    if n < 10 {
        assert(decimal(n) =~= seq![digit_char(n as int)]);
        assert(decimal(n).drop_last() =~= Seq::<char>::empty());
        assert(digits_value(decimal(n).drop_last()) == 0);
        assert(decimal(n).last() == digit_char(n as int));
        assert(is_digit(digit_char(n as int)) && digit_value(digit_char(n as int)) == n) by {
            if n == 0 {} else if n == 1 {} else if n == 2 {} else if n == 3 {} else if n == 4 {}
            else if n == 5 {} else if n == 6 {} else if n == 7 {} else if n == 8 {} else {}
        }
    } else {
        lemma_decimal_digits(n / 10);
        let d = decimal(n / 10);
        let m = (n % 10) as nat;
        assert(decimal(n) == d.push(digit_char(m as int)));
        assert(decimal(n).drop_last() =~= d);
        assert(is_digit(digit_char(m as int)) && digit_value(digit_char(m as int)) == m) by {
            if m == 0 {} else if m == 1 {} else if m == 2 {} else if m == 3 {} else if m == 4 {}
            else if m == 5 {} else if m == 6 {} else if m == 7 {} else if m == 8 {} else {}
        }
        assert forall|i: int| 0 <= i < decimal(n).len() implies is_digit(#[trigger] decimal(n)[i]) by {
            if i < d.len() {
                assert(decimal(n)[i] == d[i]);
            }
        }
        assert(decimal(n).last() == digit_char(m as int));
        assert(digits_value(decimal(n)) == digits_value(d) * 10 + m);
        assert(n == (n / 10) * 10 + m);
    }
}

fn digit_of(d: u64) -> (c: char)
    requires
        d < 10,
    ensures
        c == digit_char(d as int),
{
    if d == 0 {
        '0'
    } else if d == 1 {
        '1'
    } else if d == 2 {
        '2'
    } else if d == 3 {
        '3'
    } else if d == 4 {
        '4'
    } else if d == 5 {
        '5'
    } else if d == 6 {
        '6'
    } else if d == 7 {
        '7'
    } else if d == 8 {
        '8'
    } else {
        '9'
    }
}

/// The decimal notation of `n` (what `n.to_string()` gives).
pub fn u64_to_decimal(n: u64) -> (res: String)
    ensures
        res@ == decimal(n as nat),
    decreases n,
{
    if n < 10 {
        let mut s = String::new();
        push_char(&mut s, digit_of(n));
        s
    } else {
        let mut s = u64_to_decimal(n / 10);
        push_char(&mut s, digit_of(n % 10));
        s
    }
}

/// The value of a run of decimal digits.
pub open spec fn digits_value(s: Seq<char>) -> int
    decreases s.len(),
{
    if s.len() == 0 {
        0
    } else {
        digits_value(s.drop_last()) * 10 + digit_value(s.last())
    }
}

pub open spec fn all_digits(s: Seq<char>) -> bool {
    forall|i: int| 0 <= i < s.len() ==> is_digit(#[trigger] s[i])
}

/// `u64::from_str`: an optional `+`, then at least one decimal digit, with a
/// value that fits in 64 bits.
pub open spec fn parse_u64_spec(s: Seq<char>) -> Option<u64> {
    let body = if s.len() > 0 && s[0] == '+' {
        s.drop_first()
    } else {
        s
    };
    if body.len() > 0 && all_digits(body) && digits_value(body) <= u64::MAX {
        Some(digits_value(body) as u64)
    } else {
        None
    }
}

proof fn lemma_digits_value_nonneg(s: Seq<char>)
    requires
        all_digits(s),
    ensures
        digits_value(s) >= 0,
    decreases s.len(),
{
    if s.len() > 0 {
        lemma_digits_value_nonneg(s.drop_last());
    }
}

proof fn lemma_digits_value_grows(s: Seq<char>, j: int, k: int)
    requires
        all_digits(s),
        0 <= j <= k <= s.len(),
    ensures
        digits_value(s.take(j)) <= digits_value(s.take(k)),
    decreases k - j,
{
    if j < k {
        lemma_digits_value_grows(s, j, k - 1);
        assert(s.take(k).drop_last() =~= s.take(k - 1));
        lemma_digits_value_nonneg(s.take(k - 1));
    }
}

/// Parses an unsigned 64-bit decimal number as `str::parse::<u64>` does.
pub fn parse_u64(s: &[char]) -> (res: Option<u64>)
    ensures
        res == parse_u64_spec(s@),
{
    let start: usize = if s.len() > 0 && s[0] == '+' {
        1
    } else {
        0
    };
    let ghost body = if s@.len() > 0 && s@[0] == '+' {
        s@.drop_first()
    } else {
        s@
    };
    assert(body =~= s@.skip(start as int));
    if start == s.len() {
        return None;
    }
    let mut acc: u64 = 0;
    let mut i: usize = start;
    while i < s.len()
        invariant
            start <= i <= s.len(),
            body =~= s@.skip(start as int),
            body == (if s@.len() > 0 && s@[0] == '+' {
                s@.drop_first()
            } else {
                s@
            }),
            all_digits(s@.subrange(start as int, i as int)),
            acc == digits_value(s@.subrange(start as int, i as int)),
        decreases s.len() - i,
    {
        let c = s[i];
        if !('0' <= c && c <= '9') {
            assert(body[i - start] == c);
            assert(!is_digit(body[i - start]));
            return None;
        }
        let d = (c as u32 - 48) as u64;
        let ghost next = s@.subrange(start as int, i + 1);
        assert(next.drop_last() =~= s@.subrange(start as int, i as int));
        assert(all_digits(next));
        match acc.checked_mul(10) {
            Some(m) => match m.checked_add(d) {
                Some(v) => {
                    acc = v;
                },
                None => {
                    proof {
                        assert(next =~= body.take(i + 1 - start));
                        assert(body =~= body.take(body.len() as int));
                        if all_digits(body) {
                            lemma_digits_value_grows(body, i + 1 - start, body.len() as int);
                        }
                    }
                    return None;
                },
            },
            None => {
                proof {
                    assert(next =~= body.take(i + 1 - start));
                    assert(body =~= body.take(body.len() as int));
                    if all_digits(body) {
                        lemma_digits_value_grows(body, i + 1 - start, body.len() as int);
                    }
                }
                return None;
            },
        }
        i = i + 1;
    }
    assert(s@.subrange(start as int, s.len() as int) =~= body);
    Some(acc)
}

// ---------------------------------------------------------------------------
// Prefixes and suffixes
// ---------------------------------------------------------------------------

pub open spec fn has_prefix(s: Seq<char>, p: Seq<char>) -> bool {
    p.len() <= s.len() && s.take(p.len() as int) == p
}

pub open spec fn has_suffix(s: Seq<char>, p: Seq<char>) -> bool {
    p.len() <= s.len() && s.skip(s.len() - p.len()) == p
}

/// `str::trim_start_matches` with a string pattern: removes the pattern from
/// the front as many times as it occurs there.
pub open spec fn strip_all_prefix(s: Seq<char>, p: Seq<char>) -> Seq<char>
    decreases s.len(),
{
    if p.len() > 0 && has_prefix(s, p) {
        strip_all_prefix(s.skip(p.len() as int), p)
    } else {
        s
    }
}

/// Whether `p` occurs in `s` at position `at`.
pub fn matches_at(s: &[char], at: usize, p: &[char]) -> (res: bool)
    requires
        at <= s.len(),
    ensures
        res == has_prefix(s@.skip(at as int), p@),
{
    if p.len() > s.len() - at {
        return false;
    }
    let mut i: usize = 0;
    while i < p.len()
        invariant
            i <= p.len(),
            at + p.len() <= s.len(),
            forall|j: int| 0 <= j < i ==> s@[at + j] == p@[j],
        decreases p.len() - i,
    {
        if s[at + i] != p[i] {
            assert(s@.skip(at as int).take(p.len() as int)[i as int] != p@[i as int]);
            return false;
        }
        i = i + 1;
    }
    assert(s@.skip(at as int).take(p.len() as int) =~= p@);
    true
}

/// Whether `p` occurs anywhere in `s`.
pub open spec fn contains_text(s: Seq<char>, p: Seq<char>) -> bool {
    exists|i: int| 0 <= i <= s.len() && #[trigger] has_prefix(s.skip(i), p)
}

/// Whether `p` occurs anywhere in `s` (`str::contains`).
pub fn contains_chars(s: &[char], p: &[char]) -> (res: bool)
    ensures
        res == contains_text(s@, p@),
{
    let mut i: usize = 0;
    while i < s.len()
        invariant
            i <= s.len(),
            forall|j: int| 0 <= j < i ==> !has_prefix(#[trigger] s@.skip(j), p@),
        decreases s.len() - i,
    {
        if matches_at(s, i, p) {
            return true;
        }
        i = i + 1;
    }
    if matches_at(s, s.len(), p) {
        return true;
    }
    proof {
        assert forall|j: int| 0 <= j <= s@.len() implies !#[trigger] has_prefix(s@.skip(j), p@) by {
            if j < s@.len() {
                assert(j < i);
            }
        }
    }
    false
}

/// `str::contains` on two string slices.
pub fn contains_str(s: &str, p: &str) -> (res: bool)
    ensures
        res == contains_text(s@, p@),
{
    let cs = chars_of(s);
    let ps = chars_of(p);
    contains_chars(cs.as_slice(), ps.as_slice())
}

/// Index where the text remains after `str::trim_start_matches(p)`.
pub fn strip_all_prefix_index(s: &[char], p: &[char]) -> (res: usize)
    ensures
        res <= s.len(),
        s@.skip(res as int) == strip_all_prefix(s@, p@),
{
    let mut at: usize = 0;
    if p.len() == 0 {
        assert(s@.skip(0) =~= s@);
        return 0;
    }
    assert(s@.skip(0) =~= s@);
    while matches_at(s, at, p)
        invariant
            at <= s.len(),
            p.len() > 0,
            strip_all_prefix(s@.skip(at as int), p@) == strip_all_prefix(s@, p@),
        decreases s.len() - at,
    {
        assert(s@.skip(at as int).skip(p.len() as int) =~= s@.skip(at + p.len()));
        at = at + p.len();
    }
    at
}

/// The subrange `s[from..to]` as a new vector.
pub fn slice_chars(s: &[char], from: usize, to: usize) -> (res: Vec<char>)
    requires
        from <= to <= s.len(),
    ensures
        res@ == s@.subrange(from as int, to as int),
{
    let mut out: Vec<char> = Vec::new();
    let mut i: usize = from;
    while i < to
        invariant
            from <= i <= to <= s.len(),
            out@ == s@.subrange(from as int, i as int),
        decreases to - i,
    {
        out.push(s[i]);
        i = i + 1;
        assert(out@ =~= s@.subrange(from as int, i as int));
    }
    out
}

// ---------------------------------------------------------------------------
// Whitespace-separated words, trimming and lines
// ---------------------------------------------------------------------------

/// Scanning state after the first `i` characters when splitting on whitespace:
/// the finished words and the word in progress.
pub open spec fn words_scan(s: Seq<char>, i: int) -> (Seq<Seq<char>>, Seq<char>)
    decreases i,
{
    if i <= 0 {
        (Seq::empty(), Seq::empty())
    } else {
        let (done, cur) = words_scan(s, i - 1);
        if is_ws(s[i - 1]) {
            if cur.len() > 0 {
                (done.push(cur), Seq::empty())
            } else {
                (done, cur)
            }
        } else {
            (done, cur.push(s[i - 1]))
        }
    }
}

/// `str::split_whitespace`: the maximal runs of non-whitespace characters.
pub open spec fn words(s: Seq<char>) -> Seq<Seq<char>> {
    let (done, cur) = words_scan(s, s.len() as int);
    if cur.len() > 0 {
        done.push(cur)
    } else {
        done
    }
}

/// The words of `s`, each as its own character vector.
pub fn split_whitespace(s: &[char]) -> (res: Vec<Vec<char>>)
    ensures
        res@.len() == words(s@).len(),
        forall|k: int| 0 <= k < res@.len() ==> (#[trigger] res@[k])@ == words(s@)[k],
{
    let mut done: Vec<Vec<char>> = Vec::new();
    let mut cur: Vec<char> = Vec::new();
    let mut i: usize = 0;
    while i < s.len()
        invariant
            i <= s.len(),
            done@.len() == words_scan(s@, i as int).0.len(),
            forall|k: int| 0 <= k < done@.len() ==> (#[trigger] done@[k])@ == words_scan(s@, i as int).0[k],
            cur@ == words_scan(s@, i as int).1,
        decreases s.len() - i,
    {
        let c = s[i];
        if is_whitespace(c) {
            if cur.len() > 0 {
                let finished = cur;
                done.push(finished);
                cur = Vec::new();
            }
        } else {
            cur.push(c);
        }
        i = i + 1;
    }
    if cur.len() > 0 {
        done.push(cur);
    }
    done
}

/// Joins the words with single spaces.
pub open spec fn join_with(parts: Seq<Seq<char>>, sep: Seq<char>) -> Seq<char>
    decreases parts.len(),
{
    if parts.len() == 0 {
        Seq::empty()
    } else if parts.len() == 1 {
        parts[0]
    } else {
        join_with(parts.drop_last(), sep) + sep + parts.last()
    }
}

/// `str::trim`: without leading and trailing whitespace.
pub open spec fn trim(s: Seq<char>) -> Seq<char>
    decreases s.len(),
{
    if s.len() > 0 && is_ws(s[0]) {
        trim(s.drop_first())
    } else if s.len() > 0 && is_ws(s.last()) {
        trim(s.drop_last())
    } else {
        s
    }
}

/// `str::trim` on characters.
pub fn trim_chars(s: &[char]) -> (res: Vec<char>)
    ensures
        res@ == trim(s@),
{
    let mut lo: usize = 0;
    let mut hi: usize = s.len();
    assert(s@.subrange(0, s.len() as int) =~= s@);
    while lo < hi && (is_whitespace(s[lo]) || is_whitespace(s[hi - 1]))
        invariant
            lo <= hi <= s.len(),
            trim(s@.subrange(lo as int, hi as int)) == trim(s@),
        decreases hi - lo,
    {
        let ghost mid = s@.subrange(lo as int, hi as int);
        if is_whitespace(s[lo]) {
            assert(mid.drop_first() =~= s@.subrange(lo + 1, hi as int));
            lo = lo + 1;
        } else {
            assert(mid.drop_last() =~= s@.subrange(lo as int, hi - 1));
            hi = hi - 1;
        }
    }
    proof {
        if s@.len() == 0 {
            assert(s@.subrange(0, 0) =~= s@);
        }
        if lo == 0 && hi == s.len() {
            assert(s@.subrange(0, s.len() as int) =~= s@);
        }
    }
    slice_chars(s, lo, hi)
}

/// Scanning state after `i` characters when splitting into lines at `\n`.
pub open spec fn lines_scan(s: Seq<char>, i: int) -> (Seq<Seq<char>>, Seq<char>)
    decreases i,
{
    if i <= 0 {
        (Seq::empty(), Seq::empty())
    } else {
        let (done, cur) = lines_scan(s, i - 1);
        if s[i - 1] == '\n' {
            (done.push(cur), Seq::empty())
        } else {
            (done, cur.push(s[i - 1]))
        }
    }
}

/// A line without its terminating carriage return.
pub open spec fn strip_cr(l: Seq<char>) -> Seq<char> {
    if l.len() > 0 && l.last() == '\r' {
        l.drop_last()
    } else {
        l
    }
}

/// `str::lines`: the text split at `\n` (a final `\r` dropped from each line),
/// with no empty line after a final line break.
pub open spec fn lines(s: Seq<char>) -> Seq<Seq<char>> {
    let (done, cur) = lines_scan(s, s.len() as int);
    let all = if cur.len() > 0 {
        done.push(cur)
    } else {
        done
    };
    all.map_values(|l: Seq<char>| strip_cr(l))
}

/// The lines of `s`.
pub fn split_lines(s: &[char]) -> (res: Vec<Vec<char>>)
    ensures
        res@.len() == lines(s@).len(),
        forall|k: int| 0 <= k < res@.len() ==> (#[trigger] res@[k])@ == lines(s@)[k],
{
    let mut done: Vec<Vec<char>> = Vec::new();
    let mut cur: Vec<char> = Vec::new();
    let mut i: usize = 0;
    while i < s.len()
        invariant
            i <= s.len(),
            done@.len() == lines_scan(s@, i as int).0.len(),
            forall|k: int| 0 <= k < done@.len() ==> (#[trigger] done@[k])@ == lines_scan(s@, i as int).0[k],
            cur@ == lines_scan(s@, i as int).1,
        decreases s.len() - i,
    {
        let c = s[i];
        if c == '\n' {
            let finished = cur;
            done.push(finished);
            cur = Vec::new();
        } else {
            cur.push(c);
        }
        i = i + 1;
    }
    if cur.len() > 0 {
        done.push(cur);
    }
    let mut out: Vec<Vec<char>> = Vec::new();
    let mut k: usize = 0;
    while k < done.len()
        invariant
            k <= done@.len(),
            out@.len() == k,
            forall|j: int| 0 <= j < k ==> (#[trigger] out@[j])@ == strip_cr(done@[j]@),
        decreases done.len() - k,
    {
        let line = &done[k];
        let n = line.len();
        if n > 0 && line[n - 1] == '\r' {
            out.push(slice_chars(line, 0, n - 1));
            assert(line@.drop_last() =~= line@.subrange(0, n - 1));
        } else {
            out.push(slice_chars(line, 0, n));
            assert(line@ =~= line@.subrange(0, n as int));
        }
        k = k + 1;
    }
    out
}

// ---------------------------------------------------------------------------
// Quoting
// ---------------------------------------------------------------------------

pub open spec fn escape_quote_char(c: char) -> Seq<char> {
    if c == '\\' {
        seq!['\\', '\\']
    } else if c == '"' {
        seq!['\\', '"']
    } else {
        seq![c]
    }
}

/// Backslashes doubled, then double quotes preceded by a backslash.
pub open spec fn escape_quotes(s: Seq<char>) -> Seq<char>
    decreases s.len(),
{
    if s.len() == 0 {
        Seq::empty()
    } else {
        escape_quotes(s.drop_last()) + escape_quote_char(s.last())
    }
}

/// Appends `s` with backslashes and double quotes escaped.
pub fn push_escaped(out: &mut String, s: &str)
    ensures
        final(out)@ == old(out)@ + escape_quotes(s@),
{
    let cs = chars_of(s);
    let ghost start = out@;
    let mut i: usize = 0;
    while i < cs.len()
        invariant
            i <= cs.len(),
            cs@ == s@,
            out@ == start + escape_quotes(cs@.take(i as int)),
        decreases cs.len() - i,
    {
        let c = cs[i];
        if c == '\\' {
            push_char(out, '\\');
            push_char(out, '\\');
        } else if c == '"' {
            push_char(out, '\\');
            push_char(out, '"');
        } else {
            push_char(out, c);
        }
        assert(cs@.take(i + 1).drop_last() =~= cs@.take(i as int));
        i = i + 1;
        assert(out@ =~= start + escape_quotes(cs@.take(i as int)));
    }
    assert(cs@.take(cs.len() as int) =~= cs@);
}

// ---------------------------------------------------------------------------
// Debug notation
// ---------------------------------------------------------------------------

/// What `format!("{:?}", s)` writes for a string: the text in double quotes
/// with Rust's escapes.
pub uninterp spec fn debug_str(s: Seq<char>) -> Seq<char>;

/// Printable ASCII other than the double quote and the backslash: characters
/// that the Debug notation of a string keeps as they are.
pub open spec fn is_plain_text(s: Seq<char>) -> bool {
    forall|i: int|
        0 <= i < s.len() ==> {
            &&& 0x20 <= (#[trigger] s[i]) as u32 <= 0x7e
            &&& s[i] != '"'
            &&& s[i] != '\\'
        }
}

/// `<str as Debug>::fmt` through `format!("{:?}")`. The std documentation
/// (`char::escape_debug`) shows that printable characters other than the quote
/// and the backslash are written unchanged, so plain ASCII text only gains the
/// surrounding quotes; the escapes of other characters are left to the name.
#[verifier::external_body]
pub fn debug_quote(s: &str) -> (res: String)
    ensures
        res@ == debug_str(s@),
        is_plain_text(s@) ==> res@ == seq!['"'] + s@ + seq!['"'],
{
    format!("{s:?}")
}

/// `n` spaces.
pub open spec fn spaces(n: nat) -> Seq<char> {
    Seq::new(n, |_i: int| ' ')
}

pub fn push_spaces(s: &mut String, n: usize)
    ensures
        final(s)@ == old(s)@ + spaces(n as nat),
{
    let ghost start = s@;
    let mut i: usize = 0;
    while i < n
        invariant
            i <= n,
            s@ == start + spaces(i as nat),
        decreases n - i,
    {
        push_char(s, ' ');
        i = i + 1;
        assert(s@ =~= start + spaces(i as nat));
    }
}

/// The strings of `v`, each in Debug notation, separated by single spaces.
pub open spec fn debug_list(v: Seq<String>) -> Seq<char> {
    join_with(v.map_values(|a: String| debug_str(a@)), seq![' '])
}

pub fn push_debug_list(s: &mut String, v: &Vec<String>)
    ensures
        final(s)@ == old(s)@ + debug_list(v@),
{
    let ghost start = s@;
    let mut i: usize = 0;
    while i < v.len()
        invariant
            i <= v.len(),
            s@ == start + debug_list(v@.take(i as int)),
        decreases v.len() - i,
    {
        let q = debug_quote(v[i].as_str());
        let ghost parts = v@.take(i as int).map_values(|a: String| debug_str(a@));
        let ghost next = v@.take(i + 1).map_values(|a: String| debug_str(a@));
        assert(next.drop_last() =~= parts);
        if i > 0 {
            push_char(s, ' ');
        }
        push_str(s, q.as_str());
        i = i + 1;
        assert(s@ =~= start + debug_list(v@.take(i as int)));
    }
    assert(v@.take(v.len() as int) =~= v@);
}

/// The characters of an optional string slice.
pub open spec fn opt_view(o: Option<&str>) -> Option<Seq<char>> {
    match o {
        Some(s) => Some(s@),
        None => None,
    }
}

/// `format!("{:<w$}", s)`: the text followed by spaces up to `w` characters.
pub open spec fn pad_right(s: Seq<char>, w: nat) -> Seq<char> {
    if s.len() >= w {
        s
    } else {
        s + spaces((w - s.len()) as nat)
    }
}

/// Appends `t` padded with spaces to `w` characters.
pub fn push_padded(out: &mut String, t: &str, w: usize)
    ensures
        final(out)@ == old(out)@ + pad_right(t@, w as nat),
{
    let n = t.unicode_len();
    push_str(out, t);
    if n < w {
        push_spaces(out, w - n);
    }
}

/// Before any line break, the scan holds no finished line and the text so far.
proof fn lemma_scan_without_breaks(s: Seq<char>, i: int)
    requires
        0 <= i <= s.len(),
        forall|k: int| 0 <= k < s.len() ==> s[k] != '\n',
    ensures
        lines_scan(s, i) == (Seq::<Seq<char>>::empty(), s.take(i)),
    decreases i,
{
    if i > 0 {
        lemma_scan_without_breaks(s, i - 1);
        assert(s.take(i - 1).push(s[i - 1]) =~= s.take(i));
    } else {
        assert(s.take(0) =~= Seq::<char>::empty());
    }
}

/// A non-empty text without a line break is one line.
pub proof fn lemma_single_line(s: Seq<char>)
    requires
        s.len() > 0,
        forall|k: int| 0 <= k < s.len() ==> s[k] != '\n',
    ensures
        lines(s) == seq![strip_cr(s)],
{
    lemma_scan_without_breaks(s, s.len() as int);
    assert(s.take(s.len() as int) =~= s);
    let all = Seq::<Seq<char>>::empty().push(s);
    assert(all.map_values(|l: Seq<char>| strip_cr(l)) =~= seq![strip_cr(s)]);
}

/// Trimming keeps a text with a non-space character non-empty.
pub proof fn lemma_trim_nonempty(s: Seq<char>, k: int)
    requires
        0 <= k < s.len(),
        !is_ws(s[k]),
    ensures
        trim(s).len() > 0,
    decreases s.len(),
{
    if s.len() > 0 && is_ws(s[0]) {
        assert(s.drop_first()[k - 1] == s[k]);
        lemma_trim_nonempty(s.drop_first(), k - 1);
    } else if s.len() > 0 && is_ws(s.last()) {
        assert(s.drop_last()[k] == s[k]);
        lemma_trim_nonempty(s.drop_last(), k);
    }
}

/// Trimming keeps a text that starts with a non-space non-empty.
pub proof fn lemma_trim_keeps_first(s: Seq<char>)
    requires
        s.len() > 0,
        !is_ws(s[0]),
    ensures
        trim(s).len() > 0,
    decreases s.len(),
{
    if s.len() > 1 && is_ws(s.last()) {
        assert(s.drop_last()[0] == s[0]);
        lemma_trim_keeps_first(s.drop_last());
    }
}

} // verus!
