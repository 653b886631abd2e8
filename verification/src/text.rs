//! Small verified text utilities: decimal and hexadecimal rendering,
//! bounded number parsing, and character search over string views.

use vstd::prelude::*;

verus! {

// ---------------------------------------------------------------------------
// Decimal rendering
// ---------------------------------------------------------------------------

/// ASCII bytes of the decimal form of `n` (no sign, no leading zeros).
pub open spec fn spec_dec_bytes(n: int) -> Seq<u8>
    recommends
        n >= 0,
    decreases n,
{
    if n < 10 {
        seq![(n + 48) as u8]
    } else {
        spec_dec_bytes(n / 10).push((n % 10 + 48) as u8)
    }
}

/// Characters of the decimal form of `n`.
pub open spec fn spec_dec(n: int) -> Seq<char> {
    spec_dec_bytes(n).map_values(|b: u8| b as char)
}

proof fn lemma_dec_bytes_are_digits(n: int)
    requires
        n >= 0,
    ensures
        spec_dec_bytes(n).len() > 0,
        forall|i: int|
            0 <= i < spec_dec_bytes(n).len() ==> 48 <= #[trigger] spec_dec_bytes(n)[i] <= 57,
    decreases n,
{
    if n >= 10 {
        lemma_dec_bytes_are_digits(n / 10);
    }
}

fn push_dec_bytes(n: u64, out: &mut Vec<u8>)
    ensures
        final(out)@ == old(out)@ + spec_dec_bytes(n as int),
    decreases n,
{
    if n >= 10 {
        push_dec_bytes(n / 10, out);
    }
    out.push((n % 10) as u8 + 48);
    proof {
        assert(out@ =~= old(out)@ + spec_dec_bytes(n as int));
    }
}

/// Relies on String::from_utf8: bytes below 128 decode to exactly one
/// character each, equal to the byte.
#[verifier::external_body]
fn ascii_string(bytes: Vec<u8>) -> (r: String)
    requires
        forall|i: int| 0 <= i < bytes@.len() ==> bytes@[i] < 128,
    ensures
        r@ == bytes@.map_values(|b: u8| b as char),
{
    String::from_utf8(bytes).unwrap_or_default()
}

/// Decimal form of an unsigned number, e.g. 4840 to "4840".
pub fn u64_to_dec(n: u64) -> (r: String)
    ensures
        r@ == spec_dec(n as int),
{
    let mut bytes: Vec<u8> = Vec::new();
    push_dec_bytes(n, &mut bytes);
    proof {
        lemma_dec_bytes_are_digits(n as int);
    }
    ascii_string(bytes)
}

// ---------------------------------------------------------------------------
// Hexadecimal rendering (fixed width of 8, upper case)
// ---------------------------------------------------------------------------

/// ASCII byte of one hexadecimal digit, upper case.
pub open spec fn spec_hex_digit(d: int) -> u8 {
    if d < 10 {
        (d + 48) as u8
    } else {
        (d + 55) as u8
    }
}

/// ASCII bytes of the lowest `k` hexadecimal digits of `n`, highest first.
pub open spec fn spec_hex_bytes(n: int, k: nat) -> Seq<u8>
    decreases k,
{
    if k == 0 {
        Seq::empty()
    } else {
        spec_hex_bytes(n / 16, (k - 1) as nat).push(spec_hex_digit(n % 16))
    }
}

/// Characters of the eight-digit hexadecimal form of `n`.
pub open spec fn spec_hex8(n: int) -> Seq<char> {
    spec_hex_bytes(n, 8).map_values(|b: u8| b as char)
}

proof fn lemma_hex_bytes_ascii(n: int, k: nat)
    requires
        n >= 0,
    ensures
        spec_hex_bytes(n, k).len() == k,
        forall|i: int| 0 <= i < k ==> #[trigger] spec_hex_bytes(n, k)[i] < 128,
    decreases k,
{
    if k > 0 {
        lemma_hex_bytes_ascii(n / 16, (k - 1) as nat);
    }
}

fn push_hex_bytes(n: u32, k: u32, out: &mut Vec<u8>)
    requires
        k <= 8,
    ensures
        final(out)@ == old(out)@ + spec_hex_bytes(n as int, k as nat),
    decreases k,
{
    if k > 0 {
        push_hex_bytes(n / 16, k - 1, out);
        let d = (n % 16) as u8;
        if d < 10 {
            out.push(d + 48);
        } else {
            out.push(d + 55);
        }
        proof {
            assert(out@ =~= old(out)@ + spec_hex_bytes(n as int, k as nat));
        }
    } else {
        proof {
            assert(out@ =~= old(out)@ + spec_hex_bytes(n as int, 0));
        }
    }
}

/// Eight-digit upper-case hexadecimal form of `n`, e.g. "801C0000".
pub fn u32_to_hex8(n: u32) -> (r: String)
    ensures
        r@ == spec_hex8(n as int),
{
    let mut bytes: Vec<u8> = Vec::new();
    push_hex_bytes(n, 8, &mut bytes);
    proof {
        lemma_hex_bytes_ascii(n as int, 8);
    }
    ascii_string(bytes)
}

// ---------------------------------------------------------------------------
// Bounded decimal parsing
// ---------------------------------------------------------------------------

/// Whether `c` is an ASCII decimal digit.
pub open spec fn is_digit_char(c: char) -> bool {
    '0' <= c && c <= '9'
}

/// Whether every character of `s` is an ASCII decimal digit.
pub open spec fn all_digits(s: Seq<char>) -> bool {
    forall|i: int| 0 <= i < s.len() ==> is_digit_char(#[trigger] s[i])
}

/// Numeric value of a digit string, most significant digit first.
pub open spec fn dec_value(s: Seq<char>) -> int
    decreases s.len(),
{
    if s.len() == 0 {
        0
    } else {
        dec_value(s.drop_last()) * 10 + (s.last() as int - 48)
    }
}

/// The digit text of a port: the input without its optional leading '+'.
pub open spec fn port_digit_text(s: Seq<char>) -> Seq<char> {
    if s.len() > 0 && s[0] == '+' {
        s.drop_first()
    } else {
        s
    }
}

/// The port grammar accepted by the standard library's number parser: an
/// optional leading '+', then one or more digits, value at most 65535.
pub open spec fn spec_parse_u16(s: Seq<char>) -> Option<u16> {
    let t = port_digit_text(s);
    if t.len() > 0 && all_digits(t) && dec_value(t) <= 65535 {
        Some(dec_value(t) as u16)
    } else {
        None
    }
}

proof fn lemma_dec_value_nonneg(s: Seq<char>)
    requires
        all_digits(s),
    ensures
        dec_value(s) >= 0,
    decreases s.len(),
{
    if s.len() > 0 {
        assert(all_digits(s.drop_last())) by {
            assert(forall|i: int|
                0 <= i < s.len() - 1 ==> s.drop_last()[i] == #[trigger] s[i]);
        }
        lemma_dec_value_nonneg(s.drop_last());
    }
}

proof fn lemma_dec_value_prefix(s: Seq<char>, i: int)
    requires
        all_digits(s),
        0 <= i <= s.len(),
    ensures
        dec_value(s.subrange(0, i)) <= dec_value(s),
    decreases s.len() - i,
{
    if i < s.len() {
        let p = s.subrange(0, i);
        let q = s.subrange(0, i + 1);
        assert(q.drop_last() =~= p);
        assert(all_digits(p));
        lemma_dec_value_nonneg(p);
        assert(is_digit_char(s[i]));
        assert(q.last() == s[i]);
        assert(dec_value(q) == dec_value(p) * 10 + (q.last() as int - 48));
        assert(dec_value(p) * 10 >= dec_value(p)) by (nonlinear_arith)
            requires
                dec_value(p) >= 0,
        ;
        assert(dec_value(q) >= dec_value(p));
        lemma_dec_value_prefix(s, i + 1);
    } else {
        assert(s.subrange(0, i) =~= s);
    }
}

/// Parse a decimal port number, as the standard library would.
pub fn parse_u16(s: &str) -> (r: Option<u16>)
    ensures
        r == spec_parse_u16(s@),
{
    let n = s.unicode_len();
    let start: usize = if n > 0 && s.get_char(0) == '+' {
        1
    } else {
        0
    };
    let ghost t = port_digit_text(s@);
    proof {
        assert(t =~= s@.subrange(start as int, n as int));
    }
    if start == n {
        return None;
    }
    let mut acc: u32 = 0;
    let mut i: usize = start;
    while i < n
        invariant
            start <= i <= n,
            n == s@.len(),
            start == 0 || start == 1,
            t == port_digit_text(s@),
            t == s@.subrange(start as int, n as int),
            all_digits(s@.subrange(start as int, i as int)),
            acc == dec_value(s@.subrange(start as int, i as int)),
            acc <= 65535,
        decreases n - i,
    {
        let c = s.get_char(i);
        let cu = c as u32;
        if cu < 48 || cu > 57 {
            proof {
                assert(t[i - start] == s@[i as int]);
                assert(!is_digit_char(t[i - start]));
            }
            return None;
        }
        let d = cu - 48;
        acc = acc * 10 + d;
        proof {
            assert(s@.subrange(start as int, i + 1 as int).drop_last() =~= s@.subrange(
                start as int,
                i as int,
            ));
        }
        i += 1;
        if acc > 65535 {
            proof {
                let p = s@.subrange(start as int, i as int);
                if all_digits(t) {
                    assert(p =~= t.subrange(0, i - start));
                    lemma_dec_value_prefix(t, i - start);
                }
            }
            return None;
        }
    }
    proof {
        assert(s@.subrange(start as int, i as int) =~= t);
    }
    Some(acc as u16)
}

/// Rendering a number and parsing it back yields the number again.
pub proof fn lemma_dec_roundtrip(n: int)
    requires
        0 <= n,
    ensures
        spec_dec(n).len() > 0,
        all_digits(spec_dec(n)),
        dec_value(spec_dec(n)) == n,
        spec_dec(n)[0] != '+',
    decreases n,
{
    lemma_dec_bytes_are_digits(n);
    if n < 10 {
        assert(spec_dec(n) =~= seq![((n + 48) as u8) as char]);
        let c = ((n + 48) as u8) as char;
        assert(c as int == n + 48);
        assert(seq![c].drop_last() =~= Seq::<char>::empty());
        assert(dec_value(Seq::<char>::empty()) == 0);
        assert(dec_value(seq![c]) == n);
    } else {
        lemma_dec_roundtrip(n / 10);
        let c = ((n % 10 + 48) as u8) as char;
        assert(c as int == n % 10 + 48);
        assert(spec_dec(n) =~= spec_dec(n / 10).push(c));
        assert(spec_dec(n).drop_last() =~= spec_dec(n / 10));
        assert(spec_dec(n).last() == c);
        assert(dec_value(spec_dec(n)) == dec_value(spec_dec(n).drop_last()) * 10 + (spec_dec(
            n,
        ).last() as int - 48));
        assert(dec_value(spec_dec(n)) == (n / 10) * 10 + n % 10);
        assert((n / 10) * 10 + n % 10 == n) by (nonlinear_arith)
            requires
                n >= 0,
        ;
    }
}

/// A rendered port number parses back to itself.
pub proof fn lemma_parse_dec_roundtrip(n: int)
    requires
        0 <= n <= 65535,
    ensures
        spec_parse_u16(spec_dec(n)) == Some(n as u16),
{
    lemma_dec_roundtrip(n);
}

// ---------------------------------------------------------------------------
// Character search
// ---------------------------------------------------------------------------

/// Index of the first occurrence of `c` in `s`, or `s.len()` if absent.
pub open spec fn first_at(s: Seq<char>, c: char) -> int
    decreases s.len(),
{
    if s.len() == 0 {
        0
    } else if s[0] == c {
        0
    } else {
        1 + first_at(s.drop_first(), c)
    }
}

/// Index of the last occurrence of `c` in `s`, or -1 if absent.
pub open spec fn last_at(s: Seq<char>, c: char) -> int
    decreases s.len(),
{
    if s.len() == 0 {
        -1
    } else if s.last() == c {
        s.len() - 1
    } else {
        last_at(s.drop_last(), c)
    }
}

pub proof fn lemma_first_at(s: Seq<char>, c: char)
    ensures
        0 <= first_at(s, c) <= s.len(),
        first_at(s, c) < s.len() ==> s[first_at(s, c)] == c,
        forall|j: int| 0 <= j < first_at(s, c) ==> s[j] != c,
    decreases s.len(),
{
    if s.len() > 0 && s[0] != c {
        let rest = s.drop_first();
        lemma_first_at(rest, c);
        assert(forall|j: int| 1 <= j < s.len() ==> s[j] == #[trigger] rest[j - 1]);
        assert forall|j: int| 0 <= j < first_at(s, c) implies s[j] != c by {
            if j >= 1 {
                assert(s[j] == rest[j - 1]);
            }
        }
        if first_at(s, c) < s.len() {
            assert(s[first_at(s, c)] == rest[first_at(rest, c)]);
        }
    }
}

pub proof fn lemma_last_at(s: Seq<char>, c: char)
    ensures
        -1 <= last_at(s, c) < s.len(),
        last_at(s, c) >= 0 ==> s[last_at(s, c)] == c,
        forall|j: int| last_at(s, c) < j < s.len() ==> s[j] != c,
    decreases s.len(),
{
    if s.len() > 0 && s.last() != c {
        let head = s.drop_last();
        lemma_last_at(head, c);
        assert(forall|j: int| 0 <= j < s.len() - 1 ==> s[j] == #[trigger] head[j]);
        assert forall|j: int| last_at(s, c) < j < s.len() implies s[j] != c by {
            if j < s.len() - 1 {
                assert(s[j] == head[j]);
            }
        }
        if last_at(s, c) >= 0 {
            assert(s[last_at(s, c)] == head[last_at(head, c)]);
        }
    }
}

/// `first_at` is determined by what an index-by-index search finds.
pub proof fn lemma_first_at_is(s: Seq<char>, c: char, i: int)
    requires
        0 <= i <= s.len(),
        i < s.len() ==> s[i] == c,
        forall|j: int| 0 <= j < i ==> s[j] != c,
    ensures
        first_at(s, c) == i,
    decreases s.len(),
{
    if s.len() == 0 {
    } else if s[0] == c {
        assert(i == 0);
    } else {
        let rest = s.drop_first();
        assert(forall|j: int| 0 <= j < rest.len() ==> rest[j] == #[trigger] s[j + 1]);
        lemma_first_at_is(rest, c, i - 1);
    }
}

/// Find the first occurrence of `c` in `s`.
pub fn find_first(s: &str, c: char) -> (r: usize)
    ensures
        r == first_at(s@, c),
{
    let n = s.unicode_len();
    let mut i: usize = 0;
    while i < n
        invariant
            0 <= i <= n,
            n == s@.len(),
            forall|j: int| 0 <= j < i ==> s@[j] != c,
        decreases n - i,
    {
        if s.get_char(i) == c {
            proof {
                lemma_first_at_is(s@, c, i as int);
            }
            return i;
        }
        i += 1;
    }
    proof {
        lemma_first_at_is(s@, c, n as int);
    }
    n
}

/// `last_at` is determined by what a search from the end finds.
pub proof fn lemma_last_at_is(s: Seq<char>, c: char, i: int)
    requires
        0 <= i < s.len(),
        s[i] == c,
        forall|j: int| i < j < s.len() ==> s[j] != c,
    ensures
        last_at(s, c) == i,
    decreases s.len(),
{
    if s.last() == c {
        assert(i == s.len() - 1);
    } else {
        let head = s.drop_last();
        assert(forall|j: int| 0 <= j < head.len() ==> head[j] == #[trigger] s[j]);
        assert(i < s.len() - 1);
        lemma_last_at_is(head, c, i);
    }
}

/// When `c` does not occur in `s`, `last_at` reports absence.
pub proof fn lemma_last_at_none(s: Seq<char>, c: char)
    requires
        forall|j: int| 0 <= j < s.len() ==> s[j] != c,
    ensures
        last_at(s, c) == -1,
    decreases s.len(),
{
    if s.len() > 0 {
        let head = s.drop_last();
        assert(forall|j: int| 0 <= j < head.len() ==> head[j] == #[trigger] s[j]);
        lemma_last_at_none(head, c);
    }
}

/// Find the last occurrence of `c` in `s`; `None` if absent.
pub fn find_last(s: &str, c: char) -> (r: Option<usize>)
    ensures
        match r {
            Some(i) => i == last_at(s@, c) && 0 <= last_at(s@, c),
            None => last_at(s@, c) == -1,
        },
{
    proof {
        lemma_last_at(s@, c);
    }
    let n = s.unicode_len();
    let mut i: usize = n;
    while i > 0
        invariant
            0 <= i <= n,
            n == s@.len(),
            forall|j: int| i <= j < n ==> s@[j] != c,
            -1 <= last_at(s@, c) < s@.len(),
            last_at(s@, c) >= 0 ==> s@[last_at(s@, c)] == c,
            forall|j: int| last_at(s@, c) < j < s@.len() ==> s@[j] != c,
        decreases i,
    {
        i -= 1;
        if s.get_char(i) == c {
            proof {
                if last_at(s@, c) > i as int {
                    assert(s@[last_at(s@, c)] != c);
                }
                if last_at(s@, c) < i as int {
                    assert(s@[i as int] != c);
                }
            }
            return Some(i);
        }
    }
    proof {
        if last_at(s@, c) >= 0 {
            assert(s@[last_at(s@, c)] != c);
        }
    }
    None
}

/// Whether `s` starts with the characters of `p`.
pub fn starts_with_chars(s: &str, p: &str) -> (r: bool)
    ensures
        r == (s@.len() >= p@.len() && s@.subrange(0, p@.len() as int) == p@),
{
    let n = s.unicode_len();
    let m = p.unicode_len();
    if n < m {
        proof {
            assert(!(s@.len() >= p@.len()));
        }
        return false;
    }
    let mut i: usize = 0;
    while i < m
        invariant
            0 <= i <= m,
            m == p@.len(),
            n == s@.len(),
            n >= m,
            forall|j: int| 0 <= j < i ==> s@[j] == p@[j],
        decreases m - i,
    {
        if s.get_char(i) != p.get_char(i) {
            proof {
                assert(s@.subrange(0, p@.len() as int)[i as int] != p@[i as int]);
            }
            return false;
        }
        i += 1;
    }
    proof {
        assert(s@.subrange(0, p@.len() as int) =~= p@);
    }
    true
}

/// Whether `s` contains the characters of `p` starting at some index.
pub open spec fn contains_at(s: Seq<char>, p: Seq<char>, k: int) -> bool {
    0 <= k && k + p.len() <= s.len() && s.subrange(k, k + p.len() as int) == p
}

/// Whether `p` occurs somewhere inside `s`.
pub open spec fn spec_contains(s: Seq<char>, p: Seq<char>) -> bool {
    exists|k: int| contains_at(s, p, k)
}

/// Substring search for a pattern.
pub fn contains_chars(s: &str, p: &str) -> (r: bool)
    ensures
        r == spec_contains(s@, p@),
{
    let n = s.unicode_len();
    let m = p.unicode_len();
    if m > n {
        proof {
            assert(forall|k: int| !contains_at(s@, p@, k));
        }
        return false;
    }
    if m == 0 {
        proof {
            assert(s@.subrange(0, 0) =~= p@);
            assert(contains_at(s@, p@, 0));
        }
        return true;
    }
    let mut k: usize = 0;
    while k <= n - m
        invariant
            0 <= k <= n - m + 1,
            1 <= m <= n,
            n == s@.len(),
            m == p@.len(),
            forall|j: int| 0 <= j < k ==> !contains_at(s@, p@, j),
        decreases n + 1 - k,
    {
        let mut i: usize = 0;
        let mut matched = true;
        while i < m
            invariant
                0 <= i <= m,
                0 <= k <= n - m,
                n == s@.len(),
                m == p@.len(),
                matched ==> forall|j: int| 0 <= j < i ==> s@[k + j] == p@[j],
                !matched ==> !contains_at(s@, p@, k as int),
            decreases m - i,
        {
            if matched && s.get_char(k + i) != p.get_char(i) {
                proof {
                    let ki = i as int;
                    assert(s@.subrange(k as int, k + p@.len() as int)[ki] != p@[ki]);
                }
                matched = false;
            }
            i += 1;
        }
        if matched {
            proof {
                assert(s@.subrange(k as int, k + p@.len() as int) =~= p@);
                assert(contains_at(s@, p@, k as int));
            }
            return true;
        }
        k += 1;
    }
    proof {
        assert(forall|j: int| j > n - m ==> !contains_at(s@, p@, j));
    }
    false
}

// ---------------------------------------------------------------------------
// Case-insensitive search (ASCII folding)
// ---------------------------------------------------------------------------

/// `c` with an ASCII upper-case letter folded to lower case.
pub open spec fn lower_char(c: char) -> char {
    if 'A' <= c && c <= 'Z' {
        ((c as u32) + 32) as char
    } else {
        c
    }
}

/// Whether `p` matches `s` at offset `k` under ASCII case folding.
pub open spec fn imatch_at(s: Seq<char>, p: Seq<char>, k: int) -> bool {
    0 <= k && k + p.len() <= s.len() && forall|j: int|
        0 <= j < p.len() ==> lower_char(s[k + j]) == lower_char(#[trigger] p[j])
}

/// Whether `p` occurs inside `s` under ASCII case folding.
pub open spec fn spec_contains_insensitive(s: Seq<char>, p: Seq<char>) -> bool {
    exists|k: int| imatch_at(s, p, k)
}

/// Compare two characters under ASCII case folding.
pub fn eq_insensitive(a: char, b: char) -> (r: bool)
    ensures
        r == (lower_char(a) == lower_char(b)),
{
    let au = a as u32;
    let bu = b as u32;
    let al: u32 = if au >= 65 && au <= 90 {
        au + 32
    } else {
        au
    };
    let bl: u32 = if bu >= 65 && bu <= 90 {
        bu + 32
    } else {
        bu
    };
    proof {
        assert(lower_char(a) as u32 == al);
        assert(lower_char(b) as u32 == bl);
    }
    al == bl
}

/// Substring search under ASCII case folding.
pub fn contains_insensitive(s: &str, p: &str) -> (r: bool)
    ensures
        r == spec_contains_insensitive(s@, p@),
{
    let n = s.unicode_len();
    let m = p.unicode_len();
    if m > n {
        proof {
            assert(forall|k: int| !imatch_at(s@, p@, k));
        }
        return false;
    }
    if m == 0 {
        proof {
            assert(imatch_at(s@, p@, 0));
        }
        return true;
    }
    let mut k: usize = 0;
    while k <= n - m
        invariant
            0 <= k <= n - m + 1,
            1 <= m <= n,
            n == s@.len(),
            m == p@.len(),
            forall|j: int| 0 <= j < k ==> !imatch_at(s@, p@, j),
        decreases n + 1 - k,
    {
        let mut i: usize = 0;
        let mut matched = true;
        while i < m
            invariant
                0 <= i <= m,
                0 <= k <= n - m,
                n == s@.len(),
                m == p@.len(),
                matched ==> forall|j: int|
                    0 <= j < i ==> lower_char(s@[k + j]) == lower_char(#[trigger] p@[j]),
                !matched ==> !imatch_at(s@, p@, k as int),
            decreases m - i,
        {
            if matched && !eq_insensitive(s.get_char(k + i), p.get_char(i)) {
                matched = false;
            }
            i += 1;
        }
        if matched {
            proof {
                assert(imatch_at(s@, p@, k as int));
            }
            return true;
        }
        k += 1;
    }
    proof {
        assert(forall|j: int| j > n - m ==> !imatch_at(s@, p@, j));
    }
    false
}

// ---------------------------------------------------------------------------
// Trimming
// ---------------------------------------------------------------------------

/// A whitespace character: the Unicode White_Space set, as the standard
/// library's trim removes.
pub open spec fn is_space(c: char) -> bool {
    ||| (9 <= c as u32 && c as u32 <= 13)
    ||| c as u32 == 32
    ||| c as u32 == 0x85
    ||| c as u32 == 0xA0
    ||| c as u32 == 0x1680
    ||| (0x2000 <= c as u32 && c as u32 <= 0x200A)
    ||| c as u32 == 0x2028
    ||| c as u32 == 0x2029
    ||| c as u32 == 0x202F
    ||| c as u32 == 0x205F
    ||| c as u32 == 0x3000
}

/// `s` without leading whitespace.
pub open spec fn spec_trim_start(s: Seq<char>) -> Seq<char>
    decreases s.len(),
{
    if s.len() > 0 && is_space(s[0]) {
        spec_trim_start(s.drop_first())
    } else {
        s
    }
}

/// `s` without trailing whitespace.
pub open spec fn spec_trim_end(s: Seq<char>) -> Seq<char>
    decreases s.len(),
{
    if s.len() > 0 && is_space(s.last()) {
        spec_trim_end(s.drop_last())
    } else {
        s
    }
}

/// `s` without leading or trailing whitespace.
pub open spec fn spec_trim(s: Seq<char>) -> Seq<char> {
    spec_trim_end(spec_trim_start(s))
}

proof fn lemma_trim_start_skip(s: Seq<char>, i: int)
    requires
        0 <= i <= s.len(),
        forall|j: int| 0 <= j < i ==> is_space(#[trigger] s[j]),
    ensures
        spec_trim_start(s) == spec_trim_start(s.subrange(i, s.len() as int)),
    decreases i,
{
    if i > 0 {
        assert(s.drop_first() =~= s.subrange(1, s.len() as int));
        assert(s.subrange(1, s.len() as int).subrange(i - 1, s.len() - 1) =~= s.subrange(
            i,
            s.len() as int,
        ));
        lemma_trim_start_skip(s.drop_first(), i - 1);
    } else {
        assert(s.subrange(0, s.len() as int) =~= s);
    }
}

proof fn lemma_trim_end_cut(s: Seq<char>, b: int)
    requires
        0 <= b <= s.len(),
        forall|j: int| b <= j < s.len() ==> is_space(#[trigger] s[j]),
    ensures
        spec_trim_end(s) == spec_trim_end(s.subrange(0, b)),
    decreases s.len() - b,
{
    if b < s.len() {
        assert(s.drop_last() =~= s.subrange(0, s.len() - 1));
        assert(s.subrange(0, s.len() - 1).subrange(0, b) =~= s.subrange(0, b));
        lemma_trim_end_cut(s.drop_last(), b);
    } else {
        assert(s.subrange(0, b) =~= s);
    }
}

/// Remove leading and trailing whitespace.
pub fn trim_whitespace<'a>(s: &'a str) -> (r: &'a str)
    ensures
        r@ == spec_trim(s@),
{
    let n = s.unicode_len();
    let mut a: usize = 0;
    while a < n && is_space_char(s.get_char(a))
        invariant
            0 <= a <= n,
            n == s@.len(),
            forall|j: int| 0 <= j < a ==> is_space(#[trigger] s@[j]),
        decreases n - a,
    {
        a += 1;
    }
    proof {
        lemma_trim_start_skip(s@, a as int);
    }
    let ghost t = s@.subrange(a as int, n as int);
    proof {
        if a < n {
            assert(t[0] == s@[a as int]);
        }
        assert(spec_trim_start(t) == t);
        assert(spec_trim(s@) == spec_trim_end(t));
    }
    let mut b: usize = n;
    while b > a && is_space_char(s.get_char(b - 1))
        invariant
            a <= b <= n,
            n == s@.len(),
            t == s@.subrange(a as int, n as int),
            forall|j: int| b <= j < n ==> is_space(#[trigger] s@[j]),
        decreases b,
    {
        b -= 1;
    }
    proof {
        assert(forall|j: int|
            b - a <= j < t.len() ==> is_space(#[trigger] t[j]) && t[j] == s@[j + a]);
        lemma_trim_end_cut(t, b - a);
        assert(t.subrange(0, b - a) =~= s@.subrange(a as int, b as int));
        if b > a {
            assert(t.subrange(0, b - a).last() == s@[b - 1]);
        }
        assert(spec_trim_end(t.subrange(0, b - a)) == t.subrange(0, b - a));
    }
    s.substring_char(a, b)
}

/// Whether `c` is whitespace.
pub fn is_space_char(c: char) -> (r: bool)
    ensures
        r == is_space(c),
{
    let u = c as u32;
    (9 <= u && u <= 13) || u == 32 || u == 0x85 || u == 0xA0 || u == 0x1680 || (0x2000 <= u
        && u <= 0x200A) || u == 0x2028 || u == 0x2029 || u == 0x202F || u == 0x205F || u
        == 0x3000
}

// ---------------------------------------------------------------------------
// Truncation
// ---------------------------------------------------------------------------

/// `s` cut to `max_len` characters with an ellipsis, or unchanged when it
/// fits.
pub open spec fn spec_truncated(s: Seq<char>, max_len: int) -> Seq<char> {
    if s.len() > max_len {
        s.subrange(0, max_len) + "..."@
    } else {
        s
    }
}

/// Truncate an error message for display.
pub fn truncate_error(err: &str, max_len: usize) -> (r: String)
    ensures
        r@ == spec_truncated(err@, max_len as int),
{
    let n = err.unicode_len();
    if n > max_len {
        let mut out = err.substring_char(0, max_len).to_owned();
        out.append("...");
        out
    } else {
        err.to_owned()
    }
}

// ---------------------------------------------------------------------------
// Template substitution
// ---------------------------------------------------------------------------

/// Replace the first `{}` in `template` by `value`.
pub fn fill_marker(template: &str, value: &str) -> (r: String)
    ensures
        spec_contains(template@, "{}"@) ==> exists|k: int|
            contains_at(template@, "{}"@, k) && r@ == template@.subrange(0, k) + value@
                + template@.subrange(k + 2, template@.len() as int),
        !spec_contains(template@, "{}"@) ==> r@ == template@,
{
    proof {
        reveal_strlit("{}");
    }
    let n = template.unicode_len();
    if n < 2 {
        proof {
            assert(forall|k: int| !contains_at(template@, "{}"@, k));
        }
        return template.to_owned();
    }
    let mut k: usize = 0;
    while k <= n - 2
        invariant
            0 <= k <= n - 1,
            n == template@.len(),
            n >= 2,
            "{}"@.len() == 2 && "{}"@[0] == '{' && "{}"@[1] == '}',
            forall|j: int| 0 <= j < k ==> !contains_at(template@, "{}"@, j),
        decreases n - k,
    {
        if template.get_char(k) == '{' && template.get_char(k + 1) == '}' {
            let prefix = template.substring_char(0, k);
            let suffix = template.substring_char(k + 2, n);
            proof {
                assert(template@.subrange(k as int, k + 2) =~= "{}"@);
                assert(contains_at(template@, "{}"@, k as int));
            }
            let mut out = prefix.to_owned();
            out.append(value);
            out.append(suffix);
            return out;
        }
        proof {
            if contains_at(template@, "{}"@, k as int) {
                assert(template@.subrange(k as int, k + 2)[0] == '{');
                assert(template@.subrange(k as int, k + 2)[1] == '}');
            }
        }
        k += 1;
    }
    proof {
        assert(forall|j: int| j > n - 2 ==> !contains_at(template@, "{}"@, j));
    }
    template.to_owned()
}

} // verus!
