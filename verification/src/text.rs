//! Decimal rendering and parsing of numbers as they appear in chat messages.

use vstd::prelude::*;
use vstd::string::*;

verus! {

/// The character that writes the decimal digit `d`.
pub open spec fn digit_char(d: nat) -> char {
    if d == 0 { '0' }
    else if d == 1 { '1' }
    else if d == 2 { '2' }
    else if d == 3 { '3' }
    else if d == 4 { '4' }
    else if d == 5 { '5' }
    else if d == 6 { '6' }
    else if d == 7 { '7' }
    else if d == 8 { '8' }
    else { '9' }
}

/// Whether `c` is one of the ASCII digits `0` to `9`.
pub open spec fn is_digit(c: char) -> bool {
    48 <= (c as int) && (c as int) <= 57
}

/// The value of the digit character `c`.
pub open spec fn char_value(c: char) -> nat {
    ((c as int) - 48) as nat
}

/// Whether every character of `s` is a digit.
pub open spec fn all_digits(s: Seq<char>) -> bool {
    forall|i: int| 0 <= i < s.len() ==> is_digit(#[trigger] s[i])
}

/// The number that the digit string `s` writes in base ten (0 for the empty string).
pub open spec fn digits_value(s: Seq<char>) -> nat
    decreases s.len(),
{
    if s.len() == 0 {
        0
    } else {
        digits_value(s.drop_last()) * 10 + char_value(s.last())
    }
}

/// The decimal writing of `n`: no sign, no leading zeros, `0` for zero.
pub open spec fn decimal(n: nat) -> Seq<char>
    decreases n,
{
    if n < 10 {
        seq![digit_char(n)]
    } else {
        decimal(n / 10) + seq![digit_char(n % 10)]
    }
}

/// The decimal writing of the integer `i`: a `-` before the digits of a
/// negative number.
pub open spec fn signed_decimal(i: int) -> Seq<char> {
    if i < 0 {
        "-"@ + decimal((-i) as nat)
    } else {
        decimal(i as nat)
    }
}

/// The digits of an unsigned number as text: the text without one leading `+`.
pub open spec fn unsigned_digits(s: Seq<char>) -> Seq<char> {
    if s.len() > 0 && s[0] == '+' {
        s.drop_first()
    } else {
        s
    }
}

/// What reading `s` as a `u8` gives: an optional `+`, then at least one
/// digit and nothing else, of a value that fits in a byte.
pub open spec fn parse_u8_spec(s: Seq<char>) -> Option<u8> {
    let d = unsigned_digits(s);
    if d.len() > 0 && all_digits(d) && digits_value(d) <= 255 {
        Some(digits_value(d) as u8)
    } else {
        None
    }
}

proof fn lemma_digit_char(d: nat)
    requires
        d < 10,
    ensures
        is_digit(digit_char(d)),
        char_value(digit_char(d)) == d,
        digit_char(d) as int == 48 + d,
        digit_char(d) != '+',
{
}

proof fn lemma_digits_value_push(s: Seq<char>, c: char)
    ensures
        digits_value(s.push(c)) == digits_value(s) * 10 + char_value(c),
{
    assert(s.push(c).drop_last() =~= s);
}

/// The decimal writing of `n` is a non-empty string of ASCII digits whose
/// value is `n`, without leading zeros: it starts with `0` only for zero,
/// which is written `0`.
pub proof fn lemma_decimal(n: nat)
    ensures
        decimal(n).len() > 0,
        all_digits(decimal(n)),
        forall|i: int| 0 <= i < decimal(n).len() ==> 48 <= #[trigger] (decimal(n)[i] as int) <= 57,
        digits_value(decimal(n)) == n,
        decimal(n)[0] != '+',
        decimal(n)[0] == '0' <==> n == 0,
        n == 0 ==> decimal(n) == seq!['0'],
        n < 10 ==> decimal(n).len() == 1 && decimal(n)[0] as int == 48 + n,
    decreases n,
{
    if n < 10 {
        lemma_digit_char(n);
        lemma_digits_value_push(Seq::<char>::empty(), digit_char(n));
        assert(seq![digit_char(n)] =~= Seq::<char>::empty().push(digit_char(n)));
    } else {
        lemma_decimal(n / 10);
        lemma_digit_char(n % 10);
        let s = decimal(n / 10);
        lemma_digits_value_push(s, digit_char(n % 10));
        assert(decimal(n) =~= s.push(digit_char(n % 10)));
        assert(decimal(n)[0] == s[0]);
    }
}

/// A prefix of a digit string never has a greater value than the whole.
proof fn lemma_prefix_value_le(s: Seq<char>, j: int)
    requires
        0 <= j <= s.len(),
    ensures
        digits_value(s.take(j)) <= digits_value(s),
    decreases s.len(),
{
    if j < s.len() {
        lemma_prefix_value_le(s.drop_last(), j);
        assert(s.drop_last().take(j) =~= s.take(j));
    } else {
        assert(s.take(j) =~= s);
    }
}

/// Reading back the decimal writing of a byte gives the byte, with or
/// without a leading `+`.
pub proof fn lemma_parse_decimal(n: u8)
    ensures
        parse_u8_spec(decimal(n as nat)) == Some(n),
        parse_u8_spec(seq!['+'] + decimal(n as nat)) == Some(n),
{
    lemma_decimal(n as nat);
    let s = seq!['+'] + decimal(n as nat);
    assert(s.drop_first() =~= decimal(n as nat));
}

/// What reading a byte accepts: only an optional `+` followed by a non-empty
/// run of ASCII digits of value at most 255, and it gives that value. Empty
/// text, a lone sign, a minus sign, or any other character is refused.
pub proof fn lemma_parse_u8(s: Seq<char>)
    ensures
        parse_u8_spec(s) is Some ==> ({
            let d = if s.len() > 0 && s[0] == '+' { s.drop_first() } else { s };
            &&& d.len() > 0
            &&& forall|i: int| 0 <= i < d.len() ==> 48 <= #[trigger] (d[i] as int) <= 57
            &&& digits_value(d) <= 255
            &&& parse_u8_spec(s)->0 as nat == digits_value(d)
        }),
        s.len() == 0 ==> parse_u8_spec(s) is None,
        s == seq!['+'] ==> parse_u8_spec(s) is None,
        s.len() > 0 && s[0] == '-' ==> parse_u8_spec(s) is None,
        (exists|i: int| 0 < i < s.len() && !(48 <= #[trigger] (s[i] as int) <= 57))
            ==> parse_u8_spec(s) is None,
{
    if s.len() > 0 && s[0] == '-' {
        assert(!is_digit(unsigned_digits(s)[0]));
    }
    if exists|i: int| 0 < i < s.len() && !(48 <= #[trigger] (s[i] as int) <= 57) {
        let i = choose|i: int| 0 < i < s.len() && !(48 <= #[trigger] (s[i] as int) <= 57);
        let d = unsigned_digits(s);
        if s[0] == '+' {
            assert(d[i - 1] == s[i]);
            assert(!is_digit(d[i - 1]));
        } else {
            assert(!is_digit(d[i]));
        }
    }
}

/// A digit string's value determines the digits when there is no leading
/// zero: such a string of value `n` is the decimal writing of `n`.
pub proof fn lemma_decimal_unique(s: Seq<char>)
    requires
        s.len() > 0,
        all_digits(s),
        s[0] != '0' || s.len() == 1,
    ensures
        s == decimal(digits_value(s)),
    decreases s.len(),
{
    lemma_decimal(digits_value(s));
    if s.len() == 1 {
        let c = s[0];
        assert(s.drop_last() =~= Seq::<char>::empty());
        let v = char_value(c);
        assert(digits_value(s) == v);
        lemma_digit_char(v);
        assert(decimal(v) =~= s);
    } else {
        let t = s.drop_last();
        assert(t[0] == s[0]);
        assert(all_digits(t));
        lemma_decimal_unique(t);
        lemma_decimal(digits_value(t));
        let v = digits_value(s);
        let c = s.last();
        assert(v == digits_value(t) * 10 + char_value(c));
        assert(char_value(c) < 10);
        assert(digits_value(t) > 0) by {
            if digits_value(t) == 0 {
                assert(t == decimal(0));
                assert(t[0] == '0');
            }
        }
        assert(v / 10 == digits_value(t));
        assert(v % 10 == char_value(c));
        lemma_digit_char(char_value(c));
        assert(s =~= t + seq![c]);
    }
}

fn digit_str(d: u64) -> (r: &'static str)
    requires
        d < 10,
    ensures
        r@ == seq![digit_char(d as nat)],
{
    if d == 0 {
        proof { reveal_strlit("0"); }
        "0"
    } else if d == 1 {
        proof { reveal_strlit("1"); }
        "1"
    } else if d == 2 {
        proof { reveal_strlit("2"); }
        "2"
    } else if d == 3 {
        proof { reveal_strlit("3"); }
        "3"
    } else if d == 4 {
        proof { reveal_strlit("4"); }
        "4"
    } else if d == 5 {
        proof { reveal_strlit("5"); }
        "5"
    } else if d == 6 {
        proof { reveal_strlit("6"); }
        "6"
    } else if d == 7 {
        proof { reveal_strlit("7"); }
        "7"
    } else if d == 8 {
        proof { reveal_strlit("8"); }
        "8"
    } else {
        proof { reveal_strlit("9"); }
        "9"
    }
}

/// Writes `n` in decimal, as `Display` does for unsigned integers.
pub fn decimal_text(n: u64) -> (r: String)
    ensures
        r@ == decimal(n as nat),
{
    let mut m: u64 = n;
    let mut acc = String::new();
    loop
        invariant_except_break
            decimal(n as nat) == decimal(m as nat) + acc@,
        ensures
            acc@ == decimal(n as nat),
        decreases m,
    {
        let d: u64 = m % 10;
        let prefix = String::from_str(digit_str(d));
        acc = prefix.concat(acc.as_str());
        if m < 10 {
            assert(acc@ =~= decimal(n as nat));
            break;
        }
        proof {
            assert(decimal(m as nat) == decimal((m / 10) as nat) + seq![digit_char((m % 10) as nat)]);
            assert(decimal(n as nat) =~= decimal((m / 10) as nat) + acc@);
        }
        m = m / 10;
    }
    acc
}

/// The writing of a negative number is a minus sign before the decimal
/// writing of its magnitude; other numbers are written without a sign.
pub proof fn lemma_signed_decimal(i: int)
    ensures
        i < 0 ==> signed_decimal(i) == seq!['-'] + decimal((-i) as nat),
        i >= 0 ==> signed_decimal(i) == decimal(i as nat),
{
    reveal_strlit("-");
}

/// Writes `n` in decimal, as `Display` does for signed integers.
pub fn signed_decimal_text(n: i32) -> (r: String)
    ensures
        r@ == signed_decimal(n as int),
{
    if n < 0 {
        let magnitude: u64 = (0 - (n as i64)) as u64;
        String::from_str("-").concat(decimal_text(magnitude).as_str())
    } else {
        decimal_text(n as u64)
    }
}

/// Reads `text` as a byte, as `str::parse::<u8>` does: `None` where that
/// gives an error.
pub fn parse_u8(text: &str) -> (r: Option<u8>)
    ensures
        r == parse_u8_spec(text@),
{
    let len = text.unicode_len();
    let mut start: usize = 0;
    if len > 0 && text.get_char(0) == '+' {
        start = 1;
    }
    let ghost d = unsigned_digits(text@);
    assert(d =~= text@.subrange(start as int, len as int));
    if start == len {
        return None;
    }
    let mut value: u32 = 0;
    let mut i: usize = start;
    while i < len
        invariant
            start <= i <= len,
            len == text@.len(),
            d =~= text@.subrange(start as int, len as int),
            d == unsigned_digits(text@),
            d.len() > 0,
            value <= 255,
            value == digits_value(d.take(i - start)),
            all_digits(d.take(i - start)),
        decreases len - i,
    {
        let c = text.get_char(i);
        let code: u32 = c as u32;
        if code < 48 || code > 57 {
            assert(d[i - start] == c);
            assert(!is_digit(d[i - start]));
            assert(!all_digits(d));
            return None;
        }
        proof {
            lemma_digits_value_push(d.take(i - start), c);
            assert(d.take(i - start + 1) =~= d.take(i - start).push(c));
        }
        value = value * 10 + (code - 48);
        i = i + 1;
        if value > 255 {
            proof {
                lemma_prefix_value_le(d, i - start);
            }
            return None;
        }
    }
    assert(d.take(len - start) =~= d);
    Some(value as u8)
}

} // verus!
