//! Verified text helpers: ASCII case folding, decimal and hexadecimal
//! rendering, decimal parsing and separator splitting.

use vstd::prelude::*;

verus! {

/// Relies on std's `String::push`: appends exactly the given character.
pub assume_specification[ String::push ](s: &mut String, c: char)
    ensures
        final (s)@ == old(s)@.push(c),
;

/// The ASCII-uppercase image of one character: ASCII lowercase letters map to
/// the corresponding capitals, every other character is unchanged.
pub open spec fn spec_upper_char(c: char) -> char {
    if 'a' <= c && c <= 'z' {
        (((c as u8) - 32) as char)
    } else {
        c
    }
}

/// The ASCII-uppercase image of a character sequence.
pub open spec fn spec_upper(s: Seq<char>) -> Seq<char> {
    s.map_values(|c: char| spec_upper_char(c))
}

/// Uppercase one ASCII letter.
pub fn upper_char(c: char) -> (r: char)
    ensures
        r == spec_upper_char(c),
{
    if 'a' <= c && c <= 'z' {
        ((c as u8) - 32) as char
    } else {
        c
    }
}

/// Uppercase the ASCII letters of a string.
pub fn to_upper(s: &str) -> (r: String)
    ensures
        r@ == spec_upper(s@),
{
    let n = s.unicode_len();
    let mut out = String::new();
    let mut i: usize = 0;
    while i < n
        invariant
            n == s@.len(),
            i <= n,
            out@ == spec_upper(s@.take(i as int)),
        decreases n - i,
    {
        let c = s.get_char(i);
        out.push(upper_char(c));
        proof {
            assert(s@.take(i + 1 as int) =~= s@.take(i as int).push(s@[i as int]));
            assert(spec_upper(s@.take(i + 1 as int)) =~= spec_upper(s@.take(i as int)).push(
                spec_upper_char(s@[i as int]),
            ));
        }
        i = i + 1;
    }
    proof {
        assert(s@.take(n as int) =~= s@);
    }
    out
}

/// Whether two strings hold the same characters.
pub fn str_eq(a: &str, b: &str) -> (r: bool)
    ensures
        r == (a@ == b@),
{
    let na = a.unicode_len();
    let nb = b.unicode_len();
    if na != nb {
        return false;
    }
    let mut i: usize = 0;
    while i < na
        invariant
            na == a@.len(),
            nb == b@.len(),
            na == nb,
            i <= na,
            forall|j: int| 0 <= j < i ==> a@[j] == b@[j],
        decreases na - i,
    {
        if a.get_char(i) != b.get_char(i) {
            return false;
        }
        i = i + 1;
    }
    proof {
        assert(a@ =~= b@);
    }
    true
}

/// The decimal digit character for a value below ten.
pub open spec fn spec_digit(d: nat) -> char {
    if d == 0 {
        '0'
    } else if d == 1 {
        '1'
    } else if d == 2 {
        '2'
    } else if d == 3 {
        '3'
    } else if d == 4 {
        '4'
    } else if d == 5 {
        '5'
    } else if d == 6 {
        '6'
    } else if d == 7 {
        '7'
    } else if d == 8 {
        '8'
    } else {
        '9'
    }
}

/// The uppercase hexadecimal digit character for a value below sixteen.
pub open spec fn spec_hex_digit(d: nat) -> char {
    if d < 10 {
        spec_digit(d)
    } else if d == 10 {
        'A'
    } else if d == 11 {
        'B'
    } else if d == 12 {
        'C'
    } else if d == 13 {
        'D'
    } else if d == 14 {
        'E'
    } else {
        'F'
    }
}

/// The decimal rendering of a natural number, without leading zeros
/// (`0` renders as "0").
pub open spec fn spec_dec(n: nat) -> Seq<char>
    decreases n,
{
    if n < 10 {
        seq![spec_digit(n)]
    } else {
        spec_dec(n / 10).push(spec_digit(n % 10))
    }
}

/// The fixed-width uppercase hexadecimal rendering of the low `w` hex digits
/// of a natural number.
pub open spec fn spec_hex_fixed(n: nat, w: nat) -> Seq<char>
    decreases w,
{
    if w == 0 {
        Seq::empty()
    } else {
        spec_hex_fixed(n / 16, (w - 1) as nat).push(spec_hex_digit(n % 16))
    }
}

fn digit_char(d: u64) -> (r: char)
    requires
        d < 10,
    ensures
        r == spec_digit(d as nat),
{
    if d == 0 {
        '0'
    } else if d == 1 {
        '1'
    } else if d == 2 {
        '2'
    } else if d == 3 {
        '3'
    } else if d == 4 {
        '4'
    } else if d == 5 {
        '5'
    } else if d == 6 {
        '6'
    } else if d == 7 {
        '7'
    } else if d == 8 {
        '8'
    } else {
        '9'
    }
}

fn hex_digit_char(d: u64) -> (r: char)
    requires
        d < 16,
    ensures
        r == spec_hex_digit(d as nat),
{
    if d < 10 {
        digit_char(d)
    } else if d == 10 {
        'A'
    } else if d == 11 {
        'B'
    } else if d == 12 {
        'C'
    } else if d == 13 {
        'D'
    } else if d == 14 {
        'E'
    } else {
        'F'
    }
}

/// Append the decimal rendering of `n` to `out`.
pub fn push_dec(out: &mut String, n: u64)
    ensures
        final (out)@ == old(out)@ + spec_dec(n as nat),
    decreases n,
{
    if n >= 10 {
        push_dec(out, n / 10);
    }
    out.push(digit_char(n % 10));
    proof {
        if n < 10 {
            assert(old(out)@ + spec_dec(n as nat) =~= old(out)@.push(spec_digit(n as nat)));
        } else {
            assert(old(out)@ + spec_dec(n as nat) =~= (old(out)@ + spec_dec((n / 10) as nat)).push(
                spec_digit((n % 10) as nat),
            ));
        }
    }
}

/// Append the decimal rendering of a 128-bit value to `out`.
pub fn push_dec128(out: &mut String, n: u128)
    ensures
        final (out)@ == old(out)@ + spec_dec(n as nat),
    decreases n,
{
    if n >= 10 {
        push_dec128(out, n / 10);
    }
    let d = (n % 10) as u64;
    out.push(digit_char(d));
    proof {
        if n < 10 {
            assert(old(out)@ + spec_dec(n as nat) =~= old(out)@.push(spec_digit(n as nat)));
        } else {
            assert(old(out)@ + spec_dec(n as nat) =~= (old(out)@ + spec_dec((n / 10) as nat)).push(
                spec_digit((n % 10) as nat),
            ));
        }
    }
}

/// The decimal rendering of `n` as a fresh string.
pub fn dec_string(n: u64) -> (r: String)
    ensures
        r@ == spec_dec(n as nat),
{
    let mut out = String::new();
    push_dec(&mut out, n);
    proof {
        assert(Seq::<char>::empty() + spec_dec(n as nat) =~= spec_dec(n as nat));
    }
    out
}

/// Append the fixed-width uppercase hexadecimal rendering of the low
/// `w` hex digits of `n` to `out`.
pub fn push_hex_fixed(out: &mut String, n: u64, w: usize)
    ensures
        final (out)@ == old(out)@ + spec_hex_fixed(n as nat, w as nat),
    decreases w,
{
    if w == 0 {
        proof {
            assert(old(out)@ + spec_hex_fixed(n as nat, 0) =~= old(out)@);
        }
        return ;
    }
    push_hex_fixed(out, n / 16, w - 1);
    out.push(hex_digit_char(n % 16));
    proof {
        assert(old(out)@ + spec_hex_fixed(n as nat, w as nat) =~= (old(out)@ + spec_hex_fixed(
            (n / 16) as nat,
            (w - 1) as nat,
        )).push(spec_hex_digit((n % 16) as nat)));
    }
}

/// The numeric value of a sequence of decimal digit characters.
pub open spec fn spec_dec_val(s: Seq<char>) -> nat
    decreases s.len(),
{
    if s.len() == 0 {
        0
    } else {
        spec_dec_val(s.drop_last()) * 10 + spec_char_val(s.last())
    }
}

/// The numeric value of a decimal digit character (unspecified interest
/// outside '0'..'9'; such sequences are rejected by `spec_is_dec_digits`).
pub open spec fn spec_char_val(c: char) -> nat {
    if c == '0' {
        0
    } else if c == '1' {
        1
    } else if c == '2' {
        2
    } else if c == '3' {
        3
    } else if c == '4' {
        4
    } else if c == '5' {
        5
    } else if c == '6' {
        6
    } else if c == '7' {
        7
    } else if c == '8' {
        8
    } else if c == '9' {
        9
    } else {
        0
    }
}

/// Whether every character of `s` is a decimal digit.
pub open spec fn spec_is_dec_digits(s: Seq<char>) -> bool {
    forall|i: int| 0 <= i < s.len() ==> '0' <= #[trigger] s[i] && s[i] <= '9'
}

/// The value std's `u8` parser gives a string, with parse failures mapped to
/// zero: an optional leading '+', then at least one digit, all digits, and a
/// value of at most 255; anything else is zero.
pub open spec fn spec_parse_u8_or_zero(s: Seq<char>) -> u8 {
    let digits = if s.len() > 0 && s[0] == '+' {
        s.skip(1)
    } else {
        s
    };
    if digits.len() > 0 && spec_is_dec_digits(digits) && spec_dec_val(digits) <= 255 {
        spec_dec_val(digits) as u8
    } else {
        0
    }
}

proof fn lemma_dec_val_monotone(s: Seq<char>, i: int)
    requires
        0 <= i <= s.len(),
    ensures
        spec_dec_val(s.take(i)) <= spec_dec_val(s),
    decreases s.len() - i,
{
    if i < s.len() {
        lemma_dec_val_monotone(s, i + 1);
        assert(s.take(i + 1).drop_last() =~= s.take(i));
        assert(spec_dec_val(s.take(i)) <= spec_dec_val(s.take(i + 1)));
    } else {
        assert(s.take(i) =~= s);
    }
}

/// Parse a string of decimal digit characters as std's `u8` parser would,
/// mapping any failure (empty, non-digit, overflow) to zero.
pub fn parse_u8_or_zero(s: &str) -> (r: u8)
    ensures
        r == spec_parse_u8_or_zero(s@),
{
    let n = s.unicode_len();
    let mut start: usize = 0;
    if n > 0 && s.get_char(0) == '+' {
        start = 1;
    }
    let ghost digits = if s@.len() > 0 && s@[0] == '+' {
        s@.skip(1)
    } else {
        s@
    };
    proof {
        assert(digits =~= s@.subrange(start as int, n as int));
    }
    if start == n {
        return 0;
    }
    let mut acc: u32 = 0;
    let mut i: usize = start;
    while i < n
        invariant
            n == s@.len(),
            start <= i <= n,
            digits == (if s@.len() > 0 && s@[0] == '+' {
                s@.skip(1)
            } else {
                s@
            }),
            digits =~= s@.subrange(start as int, n as int),
            spec_is_dec_digits(digits.take(i - start)),
            acc == spec_dec_val(digits.take(i - start)),
            acc <= 255,
        decreases n - i,
    {
        let c = s.get_char(i);
        if c < '0' || c > '9' {
            proof {
                assert(!spec_is_dec_digits(digits)) by {
                    assert(0 <= i - start < digits.len());
                    assert(digits[i - start] == c);
                    assert(!('0' <= digits[i - start] && digits[i - start] <= '9'));
                }
                assert(spec_parse_u8_or_zero(s@) == 0);
            }
            return 0;
        }
        let d = (c as u32) - 48;
        proof {
            assert(digits.take(i - start + 1).drop_last() =~= digits.take(i - start));
            assert(digits.take(i - start + 1).last() == c);
            assert(spec_char_val(c) == d) by {
                assert('0' <= c && c <= '9');
            }
        }
        let next = acc * 10 + d;
        if next > 255 {
            proof {
                lemma_dec_val_monotone(digits, i - start + 1);
                assert(spec_dec_val(digits.take(i - start + 1)) == next);
            }
            return 0;
        }
        acc = next;
        i = i + 1;
    }
    proof {
        assert(digits.take(n - start) =~= digits);
    }
    acc as u8
}

/// Split a character sequence at a separator, accumulator form: `parts` holds
/// the finished fields, `cur` the field being read, `rest` the unread tail.
pub open spec fn spec_split_acc(
    parts: Seq<Seq<char>>,
    cur: Seq<char>,
    rest: Seq<char>,
    sep: char,
) -> Seq<Seq<char>>
    decreases rest.len(),
{
    if rest.len() == 0 {
        parts.push(cur)
    } else if rest[0] == sep {
        spec_split_acc(parts.push(cur), Seq::empty(), rest.skip(1), sep)
    } else {
        spec_split_acc(parts, cur.push(rest[0]), rest.skip(1), sep)
    }
}

/// The fields of `s` split at every occurrence of `sep`; an empty string has
/// one empty field, and adjacent separators yield empty fields.
pub open spec fn spec_split(s: Seq<char>, sep: char) -> Seq<Seq<char>> {
    spec_split_acc(Seq::empty(), Seq::empty(), s, sep)
}

/// Split a string at every occurrence of a separator character.
pub fn split_text(s: &str, sep: char) -> (r: Vec<String>)
    ensures
        r.deep_view() == spec_split(s@, sep),
{
    let n = s.unicode_len();
    let mut parts: Vec<String> = Vec::new();
    let mut cur = String::new();
    let mut i: usize = 0;
    proof {
        assert(parts.deep_view() =~= Seq::<Seq<char>>::empty());
        assert(s@.skip(0) =~= s@);
    }
    while i < n
        invariant
            n == s@.len(),
            i <= n,
            spec_split_acc(parts.deep_view(), cur@, s@.skip(i as int), sep) == spec_split(s@, sep),
        decreases n - i,
    {
        let c = s.get_char(i);
        let ghost rest = s@.skip(i as int);
        proof {
            assert(rest[0] == c);
            assert(rest.skip(1) =~= s@.skip(i + 1 as int));
        }
        if c == sep {
            let ghost parts_before = parts.deep_view();
            let ghost cur_before = cur@;
            parts.push(cur);
            cur = String::new();
            proof {
                assert(parts.deep_view() =~= parts_before.push(cur_before));
            }
        } else {
            cur.push(c);
        }
        i = i + 1;
    }
    proof {
        assert(s@.skip(n as int) =~= Seq::<char>::empty());
    }
    let ghost parts_before = parts.deep_view();
    let ghost cur_before = cur@;
    parts.push(cur);
    proof {
        assert(parts.deep_view() =~= parts_before.push(cur_before));
    }
    parts
}

/// Whether `p` is a prefix of `s`.
pub open spec fn spec_starts_with(s: Seq<char>, p: Seq<char>) -> bool {
    s.len() >= p.len() && s.take(p.len() as int) == p
}

/// Whether `p` occurs in `s` starting at position `i`.
pub open spec fn spec_contains_at(s: Seq<char>, p: Seq<char>, i: int) -> bool {
    0 <= i && i + p.len() <= s.len() && s.subrange(i, i + p.len()) == p
}

/// Whether `p` occurs anywhere in `s`.
pub open spec fn spec_contains(s: Seq<char>, p: Seq<char>) -> bool {
    exists|i: int| spec_contains_at(s, p, i)
}

fn match_at(s: &str, p: &str, i: usize) -> (r: bool)
    requires
        i + p@.len() <= s@.len(),
        s@.len() <= usize::MAX,
    ensures
        r == (s@.subrange(i as int, i + p@.len()) == p@),
{
    let m = p.unicode_len();
    let mut j: usize = 0;
    while j < m
        invariant
            m == p@.len(),
            i + m <= s@.len(),
            s@.len() <= usize::MAX,
            j <= m,
            forall|k: int| 0 <= k < j ==> s@[i + k] == p@[k],
        decreases m - j,
    {
        if s.get_char(i + j) != p.get_char(j) {
            proof {
                assert(s@.subrange(i as int, i + p@.len())[j as int] == s@[i + j]);
            }
            return false;
        }
        j = j + 1;
    }
    proof {
        assert(s@.subrange(i as int, i + p@.len()) =~= p@);
    }
    true
}

/// Whether `p` is a prefix of `s`.
pub fn starts_with_text(s: &str, p: &str) -> (r: bool)
    ensures
        r == spec_starts_with(s@, p@),
{
    let n = s.unicode_len();
    let m = p.unicode_len();
    if m > n {
        return false;
    }
    let r = match_at(s, p, 0);
    proof {
        assert(s@.take(p@.len() as int) =~= s@.subrange(0, p@.len() as int));
    }
    r
}

/// Whether `p` occurs anywhere in `s`.
pub fn contains_text(s: &str, p: &str) -> (r: bool)
    ensures
        r == spec_contains(s@, p@),
{
    let n = s.unicode_len();
    let m = p.unicode_len();
    if m > n {
        proof {
            assert(forall|i: int| !spec_contains_at(s@, p@, i));
        }
        return false;
    }
    if m == 0 {
        proof {
            assert(s@.subrange(0, 0) =~= p@);
            assert(spec_contains_at(s@, p@, 0));
        }
        return true;
    }
    let mut i: usize = 0;
    while i <= n - m
        invariant
            n == s@.len(),
            m == p@.len(),
            1 <= m <= n,
            i <= n - m + 1,
            forall|k: int| 0 <= k < i ==> !spec_contains_at(s@, p@, k),
        decreases n - i,
    {
        if match_at(s, p, i) {
            proof {
                assert(spec_contains_at(s@, p@, i as int));
            }
            return true;
        }
        i = i + 1;
    }
    proof {
        assert forall|k: int| !spec_contains_at(s@, p@, k) by {
            if 0 <= k < i {
            } else if k >= i {
                assert(k + p@.len() > s@.len() || !(0 <= k));
            }
        }
    }
    false
}

} // verus!


