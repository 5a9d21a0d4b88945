use vstd::prelude::*;

verus! {

/// ASCII lowercasing of one character: uppercase letters shift down by
/// 32, everything else is untouched.
pub open spec fn lower_char(c: char) -> char {
    if 'A' <= c && c <= 'Z' {
        (c as int + 32) as char
    } else {
        c
    }
}

/// ASCII lowercasing of a character sequence.
pub open spec fn lower_chars(s: Seq<char>) -> Seq<char> {
    Seq::new(s.len(), |i: int| lower_char(s[i]))
}

/// Lowercase one character, ASCII letters only.
pub fn to_lower_char(c: char) -> (r: char)
    ensures
        r == lower_char(c),
{
    if 'A' <= c && c <= 'Z' {
        let b: u8 = c as u8;
        (b + 32) as char
    } else {
        c
    }
}

/// Whether `s`, lowered ASCII-wise, equals the keyword `kw` (which the
/// callers pass already in lowercase).
pub fn eq_lowered(s: &str, kw: &str) -> (r: bool)
    ensures
        r == (lower_chars(s@) == kw@),
{
    let n = s.unicode_len();
    let k = kw.unicode_len();
    if n != k {
        assert(lower_chars(s@).len() != kw@.len());
        return false;
    }
    let mut i: usize = 0;
    while i < n
        invariant
            n == s@.len(),
            n == kw@.len(),
            i <= n,
            forall|j: int| 0 <= j < i ==> lower_chars(s@)[j] == kw@[j],
        decreases n - i,
    {
        let c = s.get_char(i);
        let w = kw.get_char(i);
        if to_lower_char(c) != w {
            assert(lower_chars(s@)[i as int] != kw@[i as int]);
            return false;
        }
        i += 1;
    }
    assert(lower_chars(s@) =~= kw@);
    true
}

/// Decimal digit test.
pub open spec fn is_digit(c: char) -> bool {
    '0' <= c && c <= '9'
}

/// Value of a decimal digit character.
pub open spec fn digit_val(c: char) -> int {
    c as int - '0' as int
}

/// Whether every character of `s` is a decimal digit.
pub open spec fn all_digits(s: Seq<char>) -> bool {
    forall|i: int| 0 <= i < s.len() ==> is_digit(#[trigger] s[i])
}

/// Value of a digit sequence read as a decimal numeral.
pub open spec fn dec_value(s: Seq<char>) -> int
    decreases s.len(),
{
    if s.len() == 0 {
        0
    } else {
        dec_value(s.drop_last()) * 10 + digit_val(s.last())
    }
}

/// The digits of an unsigned numeral as `u8::from_str` accepts it: an
/// optional leading plus sign followed by at least one digit.
pub open spec fn numeral_digits(s: Seq<char>) -> Seq<char> {
    if s.len() > 0 && s[0] == '+' {
        s.skip(1)
    } else {
        s
    }
}

/// Whether `s` is a well-formed unsigned decimal numeral (of any
/// magnitude).
pub open spec fn is_numeral(s: Seq<char>) -> bool {
    numeral_digits(s).len() > 0 && all_digits(numeral_digits(s))
}

/// The value a string denotes when read as a `u8`, if any: the string
/// must be a numeral and its value must fit.
pub open spec fn u8_of_numeral(s: Seq<char>) -> Option<u8> {
    if is_numeral(s) && 0 <= dec_value(numeral_digits(s)) <= 255 {
        Some(dec_value(numeral_digits(s)) as u8)
    } else {
        None
    }
}

proof fn lemma_dec_value_nonneg(s: Seq<char>)
    requires
        all_digits(s),
    ensures
        dec_value(s) >= 0,
    decreases s.len(),
{
    if s.len() > 0 {
        assert(all_digits(s.drop_last()));
        lemma_dec_value_nonneg(s.drop_last());
    }
}

/// Appending further digits to a numeral never lowers its value.
proof fn lemma_dec_value_prefix(s: Seq<char>, n: int)
    requires
        all_digits(s),
        0 <= n <= s.len(),
    ensures
        dec_value(s.take(n)) <= dec_value(s),
    decreases s.len() - n,
{
    if n < s.len() {
        lemma_dec_value_prefix(s, n + 1);
        let t = s.take(n + 1);
        assert(t.drop_last() =~= s.take(n));
        assert(all_digits(s.take(n)));
        lemma_dec_value_nonneg(s.take(n));
        assert(dec_value(s.take(n)) * 10 >= dec_value(s.take(n)));
        assert(dec_value(t) == dec_value(s.take(n)) * 10 + digit_val(t.last()));
        assert(digit_val(t.last()) >= 0);
    } else {
        assert(s.take(n) =~= s);
    }
}

/// Read a string as an unsigned byte, as the standard numeral parser
/// does: an optional plus sign, one or more decimal digits (leading
/// zeros allowed), value at most 255. Everything else is rejected.
pub fn parse_u8(s: &str) -> (r: Option<u8>)
    ensures
        r == u8_of_numeral(s@),
{
    let n = s.unicode_len();
    let start: usize = if n > 0 && s.get_char(0) == '+' {
        1
    } else {
        0
    };
    proof {
        assert(numeral_digits(s@) =~= s@.skip(start as int));
    }
    if start == n {
        // empty digit part: the empty string or a lone sign
        assert(numeral_digits(s@).len() == 0);
        return None;
    }
    let ghost digits = numeral_digits(s@);
    let mut acc: u32 = 0;
    let mut i: usize = start;
    while i < n
        invariant
            n == s@.len(),
            start <= i <= n,
            start < n,
            digits == s@.skip(start as int),
            digits == numeral_digits(s@),
            all_digits(digits.take(i - start)),
            acc == dec_value(digits.take(i - start)),
            acc <= 255,
        decreases n - i,
    {
        let c = s.get_char(i);
        proof {
            assert(digits[i - start] == s@[i as int]);
        }
        if !('0' <= c && c <= '9') {
            assert(!is_digit(digits[i - start]));
            assert(!all_digits(digits));
            return None;
        }
        let d: u32 = (c as u8 - 48) as u32;
        assert(d == digit_val(digits[i - start]));
        acc = acc * 10 + d;
        i += 1;
        proof {
            let t = digits.take(i - start);
            assert(t.drop_last() =~= digits.take(i - start - 1));
            assert(t.last() == digits[i - start - 1]);
        }
        if acc > 255 {
            proof {
                if all_digits(digits) {
                    lemma_dec_value_prefix(digits, i - start);
                    assert(dec_value(digits) >= acc);
                }
            }
            return None;
        }
    }
    proof {
        assert(digits.take(n - start) =~= digits);
    }
    Some(acc as u8)
}

/// Character of a decimal digit value.
pub open spec fn digit_char(d: int) -> char {
    (d + '0' as int) as char
}

/// Decimal numeral of a nonnegative integer, most significant digit
/// first, no leading zeros (a lone zero for 0).
pub open spec fn dec_chars(n: int) -> Seq<char>
    decreases n,
{
    if n < 10 {
        seq![digit_char(n)]
    } else {
        dec_chars(n / 10).push(digit_char(n % 10))
    }
}

fn digit_str(d: u32) -> (r: &'static str)
    requires
        d < 10,
    ensures
        r@ == seq![digit_char(d as int)],
{
    proof {
        reveal_strlit("0");
        reveal_strlit("1");
        reveal_strlit("2");
        reveal_strlit("3");
        reveal_strlit("4");
        reveal_strlit("5");
        reveal_strlit("6");
        reveal_strlit("7");
        reveal_strlit("8");
        reveal_strlit("9");
    }
    let r: &'static str = match d {
        0u32 => "0",
        1u32 => "1",
        2u32 => "2",
        3u32 => "3",
        4u32 => "4",
        5u32 => "5",
        6u32 => "6",
        7u32 => "7",
        8u32 => "8",
        _ => "9",
    };
    assert(r@ =~= seq![digit_char(d as int)]);
    r
}

/// Render an unsigned integer as its decimal numeral.
pub fn format_u32(n: u32) -> (s: String)
    ensures
        s@ == dec_chars(n as int),
    decreases n,
{
    if n < 10 {
        let s = String::from_str(digit_str(n));
        s
    } else {
        let mut s = format_u32(n / 10);
        s.append(digit_str(n % 10));
        proof {
            assert(s@ =~= dec_chars(n as int));
        }
        s
    }
}

/// Hexadecimal digit test, either case.
pub open spec fn is_hex_digit(c: char) -> bool {
    ('0' <= c && c <= '9') || ('a' <= c && c <= 'f') || ('A' <= c && c <= 'F')
}

/// Value of a hexadecimal digit character.
pub open spec fn hex_val(c: char) -> int {
    if '0' <= c && c <= '9' {
        c as int - '0' as int
    } else if 'a' <= c && c <= 'f' {
        c as int - 'a' as int + 10
    } else {
        c as int - 'A' as int + 10
    }
}

/// Value of a character read as a hexadecimal digit, if it is one.
pub fn hex_digit_value(c: char) -> (r: Option<u8>)
    ensures
        (r is Some) == is_hex_digit(c),
        r matches Some(v) ==> v == hex_val(c) && v < 16,
{
    if '0' <= c && c <= '9' {
        Some(c as u8 - 48)
    } else if 'a' <= c && c <= 'f' {
        Some(c as u8 - 87)
    } else if 'A' <= c && c <= 'F' {
        Some(c as u8 - 55)
    } else {
        None
    }
}

/// Characters of a boolean's name.
pub open spec fn bool_chars(b: bool) -> Seq<char> {
    if b {
        seq!['t', 'r', 'u', 'e']
    } else {
        seq!['f', 'a', 'l', 's', 'e']
    }
}

/// The name of a boolean value.
pub fn bool_str(b: bool) -> (r: &'static str)
    ensures
        r@ == bool_chars(b),
{
    proof {
        reveal_strlit("true");
        reveal_strlit("false");
    }
    if b {
        let r = "true";
        assert(r@ =~= bool_chars(b));
        r
    } else {
        let r = "false";
        assert(r@ =~= bool_chars(b));
        r
    }
}

} // verus!
