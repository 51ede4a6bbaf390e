//! Decimal numerals: how the `dashboard` parameter is read and how the
//! numbers of a token's payload are written.

use vstd::prelude::*;
use vstd::string::*;

verus! {

/// The ASCII code of `+`.
const PLUS: u8 = 43;

/// The ASCII code of `0`.
const ZERO: u8 = 48;

/// The ASCII code of `9`.
const NINE: u8 = 57;

/// `c` is one of the ten ASCII digits.
pub open spec fn is_digit(c: char) -> bool {
    '0' <= c && c <= '9'
}

/// The number that the digit `c` stands for.
pub open spec fn digit_value(c: char) -> nat {
    (c as u32 - '0' as u32) as nat
}

/// The digit that stands for `d`, for `d` below ten.
pub open spec fn digit_char(d: nat) -> char {
    (d + '0' as u8) as u8 as char
}

/// `s` is a numeral: one or more ASCII digits and nothing else.
pub open spec fn is_numeral(s: Seq<char>) -> bool {
    s.len() > 0 && forall|i: int| 0 <= i < s.len() ==> is_digit(#[trigger] s[i])
}

/// The number that a string of digits denotes in base ten; leading zeros
/// count for nothing.
pub open spec fn digits_value(s: Seq<char>) -> nat
    decreases s.len(),
{
    if s.len() == 0 {
        0
    } else {
        digits_value(s.drop_last()) * 10 + digit_value(s.last())
    }
}

/// `s` without its leading plus sign, if it has one.
pub open spec fn unsigned_body(s: Seq<char>) -> Seq<char> {
    if s.len() > 0 && s[0] == '+' {
        s.subrange(1, s.len() as int)
    } else {
        s
    }
}

/// What a string means as an unsigned 32-bit number: an optional `+`, then a
/// numeral whose value fits. Anything else (the empty string, a lone sign, a
/// minus sign, blanks, letters, a value above `u32::MAX`) means nothing.
pub open spec fn parse_u32_spec(s: Seq<char>) -> Option<u32> {
    let body = unsigned_body(s);
    if is_numeral(body) && digits_value(body) <= u32::MAX {
        Some(digits_value(body) as u32)
    } else {
        None
    }
}

/// The shortest numeral for `n`: no sign, no leading zeros, `"0"` for zero.
pub open spec fn decimal(n: nat) -> Seq<char>
    decreases n,
{
    if n < 10 {
        seq![digit_char(n)]
    } else {
        decimal(n / 10).push(digit_char(n % 10))
    }
}

/// A string of digits is worth at least as much as any of its prefixes.
proof fn lemma_prefix_value_bounded(s: Seq<char>, k: int)
    requires
        0 <= k <= s.len(),
    ensures
        digits_value(s.subrange(0, k)) <= digits_value(s),
    decreases s.len(),
{
    if k == s.len() {
        assert(s.subrange(0, k) =~= s);
    } else {
        lemma_prefix_value_bounded(s.drop_last(), k);
        assert(s.drop_last().subrange(0, k) =~= s.subrange(0, k));
    }
}

/// A string that holds a character outside ASCII is no number.
proof fn lemma_non_ascii_is_no_number(s: Seq<char>)
    requires
        !vstd::utf8::is_ascii_chars(s),
    ensures
        parse_u32_spec(s) is None,
{
    let i = choose|i: int| 0 <= i < s.len() && !('\0' <= #[trigger] s[i] <= '\u{7f}');
    let body = unsigned_body(s);
    if body.len() < s.len() {
        // The plus sign is ASCII, so the character stands in the body.
        assert(!is_digit(body[i - 1]));
    }
}

/// Reads an unsigned 32-bit number from its decimal text.
///
/// The text may start with one `+`. After that it must be a numeral, and the
/// number must fit in 32 bits; otherwise the result is `None`.
pub fn parse_u32(s: &str) -> (r: Option<u32>)
    ensures
        r == parse_u32_spec(s@),
{
    if !s.is_ascii() {
        proof {
            lemma_non_ascii_is_no_number(s@);
        }
        return None;
    }
    let bytes = s.as_bytes();
    proof {
        is_ascii_spec_bytes(s);
    }
    let n: usize = bytes.len();
    let start: usize = if n > 0 && bytes[0] == PLUS {
        1
    } else {
        0
    };
    let ghost body = unsigned_body(s@);
    if start == n {
        return None;
    }
    let mut acc: u32 = 0;
    let mut i: usize = start;
    while i < n
        invariant
            start <= i <= n,
            n == s@.len(),
            n == bytes@.len(),
            vstd::utf8::is_ascii_chars(s@),
            forall|j: int| 0 <= j < n ==> bytes@[j] == s@[j] as u8,
            body == unsigned_body(s@),
            body.len() == n - start,
            body.len() > 0,
            forall|j: int| 0 <= j < i - start ==> is_digit(#[trigger] body[j]),
            acc == digits_value(body.subrange(0, i - start)),
        decreases n - i,
    {
        let b: u8 = bytes[i];
        let ghost k: int = i - start;
        if b < ZERO || b > NINE {
            assert(!is_digit(body[k]));
            return None;
        }
        let d: u32 = (b - ZERO) as u32;
        assert(body.subrange(0, k + 1).drop_last() =~= body.subrange(0, k));
        if acc > (u32::MAX - d) / 10 {
            proof {
                lemma_prefix_value_bounded(body, k + 1);
            }
            return None;
        }
        acc = acc * 10 + d;
        i = i + 1;
    }
    assert(body.subrange(0, i - start) =~= body);
    Some(acc)
}

/// The one-character string for a digit.
fn digit_str(d: u64) -> (s: &'static str)
    requires
        d < 10,
    ensures
        s@ == seq![digit_char(d as nat)],
{
    proof {
        reveal_strlit("0");
        reveal_strlit("1");
        reveal_strlit("2");
        reveal_strlit("3");
        reveal_strlit("4");
        reveal_strlit("5");
        reveal_strlit("6");
        reveal_strlit("7");
        reveal_strlit("8");
        reveal_strlit("9");
    }
    match d {
        0 => "0",
        1 => "1",
        2 => "2",
        3 => "3",
        4 => "4",
        5 => "5",
        6 => "6",
        7 => "7",
        8 => "8",
        _ => "9",
    }
}

/// Writes `n` at the end of `out` as its shortest decimal numeral.
pub fn append_decimal(out: &mut String, n: u64)
    ensures
        final(out)@ == old(out)@ + decimal(n as nat),
    decreases n,
{
    if n >= 10 {
        append_decimal(out, n / 10);
    }
    out.append(digit_str(n % 10));
}

/// Every character of `decimal(n)` is a digit, and there is at least one.
pub proof fn lemma_decimal_is_numeral(n: nat)
    ensures
        is_numeral(decimal(n)),
    decreases n,
{
    if n >= 10 {
        lemma_decimal_is_numeral(n / 10);
    }
}

/// Reading `decimal(n)` as a number gives `n` back.
pub proof fn lemma_decimal_value(n: nat)
    ensures
        digits_value(decimal(n)) == n,
    decreases n,
{
    if n < 10 {
        assert(digits_value(decimal(n).drop_last()) == 0);
    } else {
        lemma_decimal_value(n / 10);
        assert(decimal(n).drop_last() =~= decimal(n / 10));
    }
}

/// Writing a 32-bit number in decimal and parsing the text gives the number
/// back: a request for `dashboard=<d>` is a request for dashboard `d`.
pub proof fn lemma_parse_decimal(d: u32)
    ensures
        parse_u32_spec(decimal(d as nat)) == Some(d),
{
    lemma_decimal_is_numeral(d as nat);
    lemma_decimal_value(d as nat);
}

} // verus!
