//! Small verified helpers on character strings.

use vstd::prelude::*;
use vstd::string::StringSliceAdditionalSpecFns;
use vstd::utf8::{encode_utf8, encode_utf8_decode_utf8};
use vstd::string::StringExecFns;

verus! {

/// Whether two strings hold the same characters. The strings are compared
/// byte by byte, which decides the same: a text has one UTF-8 encoding,
/// and an encoding one text.
pub fn str_eq(a: &str, b: &str) -> (r: bool)
    ensures
        r == (a@ == b@),
{
    let x = a.as_bytes();
    let y = b.as_bytes();
    proof {
        encode_utf8_decode_utf8(a@);
        encode_utf8_decode_utf8(b@);
    }
    if x.len() != y.len() {
        return false;
    }
    let mut i: usize = 0;
    while i < x.len()
        invariant
            i <= x.len(),
            x.len() == y.len(),
            x@ == encode_utf8(a@),
            y@ == encode_utf8(b@),
            forall|j: int| 0 <= j < i ==> x@[j] == y@[j],
        decreases x.len() - i,
    {
        if x[i] != y[i] {
            return false;
        }
        i += 1;
    }
    proof {
        assert(x@ =~= y@);
    }
    true
}

/// Index of the first occurrence of `c` in `s` at or after `i`, or the
/// length of `s` when there is none.
pub open spec fn first_index_from(s: Seq<char>, c: char, i: int) -> int
    decreases s.len() - i,
{
    if i < 0 || i >= s.len() {
        s.len() as int
    } else if s[i] == c {
        i
    } else {
        first_index_from(s, c, i + 1)
    }
}

/// Index of the first occurrence of `c` in `s`, or the length of `s`.
pub open spec fn first_index(s: Seq<char>, c: char) -> int {
    first_index_from(s, c, 0)
}

/// Position of the first `c` in `s`, in characters; the character count of
/// `s` when `c` does not occur.
pub fn find_char(s: &str, c: char) -> (i: usize)
    ensures
        i == first_index(s@, c),
{
    let n = s.unicode_len();
    let mut i: usize = 0;
    while i < n
        invariant
            n == s@.len(),
            i <= n,
            first_index(s@, c) == first_index_from(s@, c, i as int),
        decreases n - i,
    {
        if s.get_char(i) == c {
            return i;
        }
        i += 1;
    }
    i
}

/// The text of an optional string.
pub open spec fn opt_text(s: Option<String>) -> Option<Seq<char>> {
    match s {
        Some(t) => Some(t@),
        None => None,
    }
}

/// Whether `c` is white space: the code points with the Unicode property
/// `White_Space`.
pub open spec fn is_space(c: char) -> bool {
    let u = c as u32;
    (0x09 <= u <= 0x0d) || u == 0x20 || u == 0x85 || u == 0xa0 || u == 0x1680 || (0x2000 <= u
        <= 0x200a) || u == 0x2028 || u == 0x2029 || u == 0x202f || u == 0x205f || u == 0x3000
}

/// Whether `s` holds nothing but white space.
pub open spec fn is_blank(s: Seq<char>) -> bool {
    forall|i: int| 0 <= i < s.len() ==> is_space(#[trigger] s[i])
}

/// Whether `c` is white space.
pub fn char_is_space(c: char) -> (r: bool)
    ensures
        r == is_space(c),
{
    let u: u32 = c as u32;
    (0x09 <= u && u <= 0x0d) || u == 0x20 || u == 0x85 || u == 0xa0 || u == 0x1680 || (0x2000
        <= u && u <= 0x200a) || u == 0x2028 || u == 0x2029 || u == 0x202f || u == 0x205f || u
        == 0x3000
}

/// Whether `s` is empty once surrounding white space is trimmed.
pub fn str_is_blank(s: &str) -> (r: bool)
    ensures
        r == is_blank(s@),
{
    let n = s.unicode_len();
    let mut i: usize = 0;
    while i < n
        invariant
            n == s@.len(),
            i <= n,
            forall|j: int| 0 <= j < i ==> is_space(#[trigger] s@[j]),
        decreases n - i,
    {
        if !char_is_space(s.get_char(i)) {
            assert(!is_space(s@[i as int]));
            return false;
        }
        i += 1;
    }
    true
}

/// Whether `c` is an ASCII decimal digit.
pub open spec fn is_digit(c: char) -> bool {
    '0' <= c <= '9'
}

/// Numeric value of a decimal digit.
pub open spec fn digit_value(c: char) -> int {
    c as int - '0' as int
}

/// Value of a string of decimal digits, most significant first.
pub open spec fn decimal_value(s: Seq<char>) -> int
    decreases s.len(),
{
    if s.len() == 0 {
        0
    } else {
        10 * decimal_value(s.drop_last()) + digit_value(s.last())
    }
}

/// The digits of an unsigned literal: the text without one leading `+`.
pub open spec fn unsigned_digits(s: Seq<char>) -> Seq<char> {
    if s.len() > 0 && s[0] == '+' {
        s.skip(1)
    } else {
        s
    }
}

/// The `u8` that `s` denotes in decimal: an optional `+`, then one or more
/// digits whose value is at most 255. Anything else denotes nothing.
pub open spec fn parsed_u8(s: Seq<char>) -> Option<u8> {
    let d = unsigned_digits(s);
    if d.len() > 0 && (forall|i: int| 0 <= i < d.len() ==> is_digit(#[trigger] d[i]))
        && decimal_value(d) <= 255 {
        Some(decimal_value(d) as u8)
    } else {
        None
    }
}

/// A string of digits is worth at least as much as each of its prefixes.
pub proof fn lemma_decimal_prefix(s: Seq<char>, k: int)
    requires
        0 <= k <= s.len(),
        forall|i: int| 0 <= i < s.len() ==> is_digit(#[trigger] s[i]),
    ensures
        0 <= decimal_value(s.take(k)) <= decimal_value(s),
    decreases s.len() - k,
{
    if k == s.len() {
        assert(s.take(k) =~= s);
        lemma_decimal_nonneg(s);
    } else {
        lemma_decimal_prefix(s, k + 1);
        assert(s.take(k + 1).drop_last() =~= s.take(k));
        lemma_decimal_nonneg(s.take(k));
    }
}

/// A string of digits has a non-negative value.
pub proof fn lemma_decimal_nonneg(s: Seq<char>)
    requires
        forall|i: int| 0 <= i < s.len() ==> is_digit(#[trigger] s[i]),
    ensures
        0 <= decimal_value(s),
    decreases s.len(),
{
    if s.len() > 0 {
        lemma_decimal_nonneg(s.drop_last());
    }
}

/// Parse a decimal `u8`, accepting what `parsed_u8` describes.
pub fn parse_u8(s: &str) -> (r: Option<u8>)
    ensures
        r == parsed_u8(s@),
{
    let n = s.unicode_len();
    let start: usize = if n > 0 && s.get_char(0) == '+' {
        1
    } else {
        0
    };
    let ghost d = unsigned_digits(s@);
    if start == n {
        return None;
    }
    let mut acc: u32 = 0;
    let mut i: usize = start;
    while i < n
        invariant
            n == s@.len(),
            start <= i <= n,
            d == s@.skip(start as int),
            d == unsigned_digits(s@),
            forall|j: int| 0 <= j < i - start ==> is_digit(#[trigger] d[j]),
            acc == decimal_value(d.take(i - start)),
            acc <= 255,
        decreases n - i,
    {
        let c = s.get_char(i);
        assert(d[i - start] == c);
        if c < '0' || c > '9' {
            assert(!is_digit(d[i - start]));
            return None;
        }
        let digit: u32 = c as u32 - '0' as u32;
        proof {
            assert(d.take(i - start + 1).drop_last() =~= d.take(i - start));
        }
        let next: u32 = acc * 10 + digit;
        if next > 255 {
            proof {
                assert(decimal_value(d.take(i - start + 1)) == next);
                if forall|j: int| 0 <= j < d.len() ==> is_digit(#[trigger] d[j]) {
                    lemma_decimal_prefix(d, i - start + 1);
                }
            }
            return None;
        }
        acc = next;
        i += 1;
    }
    proof {
        assert(d.take(n - start) =~= d);
    }
    Some(acc as u8)
}

/// The one-character text of a decimal digit.
pub fn digit_text(d: u8) -> (r: &'static str)
    requires
        d < 10,
    ensures
        r@.len() == 1,
        is_digit(r@[0]),
        digit_value(r@[0]) == d,
{
    proof {
        reveal_strlit("0");
        reveal_strlit("1");
        reveal_strlit("2");
        reveal_strlit("3");
        reveal_strlit("4");
        reveal_strlit("5");
        reveal_strlit("6");
        reveal_strlit("7");
        reveal_strlit("8");
        reveal_strlit("9");
    }
    if d == 0 {
        "0"
    } else if d == 1 {
        "1"
    } else if d == 2 {
        "2"
    } else if d == 3 {
        "3"
    } else if d == 4 {
        "4"
    } else if d == 5 {
        "5"
    } else if d == 6 {
        "6"
    } else if d == 7 {
        "7"
    } else if d == 8 {
        "8"
    } else {
        "9"
    }
}

/// Whether `s` is the canonical decimal text of a number: digits only, at
/// least one, and no leading zero but for zero itself.
pub open spec fn is_decimal(s: Seq<char>) -> bool {
    &&& s.len() > 0
    &&& forall|i: int| 0 <= i < s.len() ==> is_digit(#[trigger] s[i])
    &&& (s.len() == 1 || s[0] != '0')
}

/// The character of a decimal digit.
pub open spec fn digit_char(d: int) -> char {
    (d + 48) as char
}

/// The canonical decimal text of a natural number.
pub open spec fn decimal_repr(n: int) -> Seq<char>
    decreases n,
{
    if n < 10 {
        seq![digit_char(n)]
    } else {
        decimal_repr(n / 10).push(digit_char(n % 10))
    }
}

/// A canonical decimal text is the text of its value, and its value is
/// positive unless the text is `0`.
pub proof fn lemma_decimal_unique(s: Seq<char>)
    requires
        is_decimal(s),
    ensures
        s == decimal_repr(decimal_value(s)),
        decimal_value(s) >= 0,
        s[0] != '0' ==> decimal_value(s) >= 1,
    decreases s.len(),
{
    let t = s.drop_last();
    let c = s.last();
    assert(is_digit(c));
    assert(digit_char(digit_value(c)) == c);
    if s.len() == 1 {
        assert(t =~= Seq::<char>::empty());
        assert(decimal_value(t) == 0);
        assert(is_digit(s[0]));
        assert(s =~= seq![c]);
    } else {
        assert(t[0] == s[0]);
        assert(is_decimal(t)) by {
            assert forall|i: int| 0 <= i < t.len() implies is_digit(#[trigger] t[i]) by {
                assert(t[i] == s[i]);
            }
        }
        lemma_decimal_unique(t);
        let v = decimal_value(s);
        assert(v == 10 * decimal_value(t) + digit_value(c));
        assert(v / 10 == decimal_value(t));
        assert(v % 10 == digit_value(c));
        assert(s =~= t.push(c));
    }
}

/// The canonical decimal text of `n`.
pub fn decimal_text(n: u64) -> (r: String)
    ensures
        r@ == decimal_repr(n as int),
        is_decimal(r@),
        decimal_value(r@) == n,
{
    let mut out = String::new();
    let mut div: u64 = 10_000_000_000_000_000_000;
    let mut step: u8 = 0;
    proof {
        assert(out@ =~= Seq::<char>::empty());
        lemma_pow10(19);
        lemma_pow10(20);
        let p = pow10(20);
        assert(n as int / p == 0) by (nonlinear_arith)
            requires
                0 <= n < p,
        ;
    }
    while step < 20
        invariant
            step <= 20,
            step < 20 ==> div as int == pow10(19 - step as int),
            forall|i: int| 0 <= i < out@.len() ==> is_digit(#[trigger] out@[i]),
            decimal_value(out@) == n as int / pow10(20 - step as int),
            out@.len() > 0 ==> out@[0] != '0' || (out@.len() == 1 && step == 20),
            out@.len() == 0 ==> n as int / pow10(20 - step as int) == 0,
            step == 20 ==> out@.len() > 0,
        decreases 20 - step,
    {
        proof {
            lemma_pow10(19 - step as int);
            lemma_pow10(20 - step as int);
            lemma_div_step(n as int, pow10(19 - step as int));
        }
        let digit: u8 = ((n / div) % 10) as u8;
        let ghost before = out@;
        if digit != 0 || out.as_str().unicode_len() > 0 || step == 19 {
            let t = digit_text(digit);
            out.append(t);
            proof {
                assert(out@ =~= before.push(t@[0]));
                assert(out@.drop_last() =~= before);
                assert(decimal_value(out@) == 10 * decimal_value(before) + digit);
            }
        }
        proof {
            if step < 19 {
                lemma_pow10(18 - step as int);
            }
        }
        if step < 19 {
            div = div / 10;
        }
        step += 1;
    }
    proof {
        assert(pow10(0) == 1);
        lemma_decimal_unique(out@);
    }
    out
}

/// The character of a hexadecimal digit, in lower case.
pub open spec fn hex_char(d: int) -> char {
    if d < 10 {
        (d + 48) as char
    } else {
        (d + 87) as char
    }
}

/// The hexadecimal text of a natural number, in lower case and without
/// leading zeros.
pub open spec fn hex_repr(n: int) -> Seq<char>
    decreases n,
{
    if n < 16 {
        seq![hex_char(n)]
    } else {
        hex_repr(n / 16).push(hex_char(n % 16))
    }
}

/// The one-character text of a hexadecimal digit.
pub fn hex_digit_text(d: u8) -> (r: &'static str)
    requires
        d < 16,
    ensures
        r@ == seq![hex_char(d as int)],
{
    proof {
        reveal_strlit("a");
        reveal_strlit("b");
        reveal_strlit("c");
        reveal_strlit("d");
        reveal_strlit("e");
        reveal_strlit("f");
    }
    if d < 10 {
        let t = digit_text(d);
        assert(t@ =~= seq![hex_char(d as int)]);
        t
    } else if d == 10 {
        let t = "a";
        assert(t@ =~= seq![hex_char(10)]);
        t
    } else if d == 11 {
        let t = "b";
        assert(t@ =~= seq![hex_char(11)]);
        t
    } else if d == 12 {
        let t = "c";
        assert(t@ =~= seq![hex_char(12)]);
        t
    } else if d == 13 {
        let t = "d";
        assert(t@ =~= seq![hex_char(13)]);
        t
    } else if d == 14 {
        let t = "e";
        assert(t@ =~= seq![hex_char(14)]);
        t
    } else {
        let t = "f";
        assert(t@ =~= seq![hex_char(15)]);
        t
    }
}

/// The hexadecimal text of `n`.
pub fn hex_text(n: u64) -> (r: String)
    ensures
        r@ == hex_repr(n as int),
    decreases n,
{
    if n < 16 {
        hex_digit_text(n as u8).to_owned()
    } else {
        let mut out = hex_text(n / 16);
        let d = hex_digit_text((n % 16) as u8);
        out.append(d);
        assert(out@ =~= hex_repr(n as int / 16).push(hex_char(n as int % 16)));
        out
    }
}

/// Ten to the power `e`; one for a negative `e`.
pub open spec fn pow10(e: int) -> int
    decreases e,
{
    if e <= 0 {
        1
    } else {
        10 * pow10(e - 1)
    }
}

/// `pow10` is positive, and at most 10^19 up to the exponent 19.
pub proof fn lemma_pow10(e: int)
    requires
        e <= 20,
    ensures
        pow10(e) >= 1,
        e >= 1 ==> pow10(e) == 10 * pow10(e - 1),
        e <= 19 ==> pow10(e) <= 10_000_000_000_000_000_000,
        e == 19 ==> pow10(e) == 10_000_000_000_000_000_000,
        e == 20 ==> pow10(e) > 0xffff_ffff_ffff_ffff,
    decreases e,
{
    reveal_with_fuel(pow10, 21);
}

/// Dividing by ten times `p` is dividing by `p` and then by ten.
pub proof fn lemma_div_step(n: int, p: int)
    requires
        n >= 0,
        p >= 1,
    ensures
        n / p == 10 * (n / (10 * p)) + (n / p) % 10,
{
    assert((n / p) / 10 == n / (10 * p)) by (nonlinear_arith)
        requires
            n >= 0,
            p >= 1,
    ;
}

} // verus!
