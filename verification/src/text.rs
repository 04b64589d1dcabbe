//! Room numbers as decimal text.
//!
//! A store that keeps numbers as text holds a room number in decimal: the
//! digits `0` to `9`, most significant first, no sign, no leading zero but
//! for zero itself. Reading is more lenient than writing: a leading `+` and
//! leading zeros are accepted, as long as the value fits sixteen bits.
use vstd::prelude::*;
use vstd::string::{StrSliceExecFns, StringExecFns};

verus! {

/// The character of a decimal digit.
pub open spec fn digit_char(d: nat) -> char {
    if d == 0 {
        '0'
    } else if d == 1 {
        '1'
    } else if d == 2 {
        '2'
    } else if d == 3 {
        '3'
    } else if d == 4 {
        '4'
    } else if d == 5 {
        '5'
    } else if d == 6 {
        '6'
    } else if d == 7 {
        '7'
    } else if d == 8 {
        '8'
    } else {
        '9'
    }
}

/// The digit that a character stands for.
pub open spec fn digit_value(c: char) -> Option<nat> {
    if c == '0' {
        Some(0)
    } else if c == '1' {
        Some(1)
    } else if c == '2' {
        Some(2)
    } else if c == '3' {
        Some(3)
    } else if c == '4' {
        Some(4)
    } else if c == '5' {
        Some(5)
    } else if c == '6' {
        Some(6)
    } else if c == '7' {
        Some(7)
    } else if c == '8' {
        Some(8)
    } else if c == '9' {
        Some(9)
    } else {
        None
    }
}

/// A number in decimal, most significant digit first.
pub open spec fn decimal_text(n: nat) -> Seq<char>
    decreases n,
{
    if n < 10 {
        seq![digit_char(n)]
    } else {
        decimal_text(n / 10).push(digit_char(n % 10))
    }
}

/// The number that a non-empty run of decimal digits stands for.
pub open spec fn digits_value(s: Seq<char>) -> Option<nat>
    decreases s.len(),
{
    if s.len() == 0 {
        None
    } else {
        match digit_value(s.last()) {
            None => None,
            Some(d) => if s.len() == 1 {
                Some(d)
            } else {
                match digits_value(s.drop_last()) {
                    Some(v) => Some(10 * v + d),
                    None => None,
                }
            },
        }
    }
}

/// The sixteen-bit number that a text stands for: an optional `+`, then
/// decimal digits whose value fits.
pub open spec fn parse_u16_text(s: Seq<char>) -> Option<u16> {
    let digits = if s.len() > 0 && s[0] == '+' {
        s.drop_first()
    } else {
        s
    };
    match digits_value(digits) {
        Some(v) => if v <= u16::MAX {
            Some(v as u16)
        } else {
            None
        },
        None => None,
    }
}

/// What is written is read back: the decimal text of a number stands for
/// that number.
pub proof fn lemma_decimal_round_trip(n: nat)
    ensures
        decimal_text(n).len() > 0,
        digit_value(decimal_text(n)[0]) is Some,
        digits_value(decimal_text(n)) == Some(n),
        n <= u16::MAX ==> parse_u16_text(decimal_text(n)) == Some(n as u16),
    decreases n,
{
    if n < 10 {
    } else {
        lemma_decimal_round_trip(n / 10);
        let t = decimal_text(n);
        assert(t.drop_last() =~= decimal_text(n / 10));
        assert(t[0] == decimal_text(n / 10)[0]);
    }
}

/// A prefix of a run of digits is a run of digits, and stands for no more.
pub proof fn lemma_digits_prefix(s: Seq<char>, k: int)
    requires
        0 < k <= s.len(),
        digits_value(s) is Some,
    ensures
        digits_value(s.take(k)) matches Some(w) && w <= digits_value(s)->0,
    decreases s.len(),
{
    if k == s.len() {
        assert(s.take(k) =~= s);
    } else {
        assert(s.drop_last().take(k) =~= s.take(k));
        lemma_digits_prefix(s.drop_last(), k);
    }
}

/// A run that holds anything but a digit stands for nothing.
pub proof fn lemma_digits_all_digits(s: Seq<char>, k: int)
    requires
        0 <= k < s.len(),
        digit_value(s[k]) is None,
    ensures
        digits_value(s) is None,
    decreases s.len(),
{
    if k == s.len() - 1 {
    } else {
        lemma_digits_all_digits(s.drop_last(), k);
    }
}

/// Reading one more digit: the value so far times ten, plus the digit.
pub proof fn lemma_digits_step(s: Seq<char>, k: int, so_far: nat, d: nat)
    requires
        0 <= k < s.len(),
        digit_value(s[k]) == Some(d),
        k > 0 ==> digits_value(s.take(k)) == Some(so_far),
        k == 0 ==> so_far == 0,
    ensures
        digits_value(s.take(k + 1)) == Some(10 * so_far + d),
{
    let longer = s.take(k + 1);
    assert(longer.last() == s[k]);
    assert(longer.drop_last() =~= s.take(k));
}

/// The text of one digit.
fn digit_str(d: u16) -> (r: &'static str)
    requires
        d < 10,
    ensures
        r@ == seq![digit_char(d as nat)],
{
    proof {
        reveal_strlit("0");
        reveal_strlit("1");
        reveal_strlit("2");
        reveal_strlit("3");
        reveal_strlit("4");
        reveal_strlit("5");
        reveal_strlit("6");
        reveal_strlit("7");
        reveal_strlit("8");
        reveal_strlit("9");
    }
    let r = if d == 0 {
        "0"
    } else if d == 1 {
        "1"
    } else if d == 2 {
        "2"
    } else if d == 3 {
        "3"
    } else if d == 4 {
        "4"
    } else if d == 5 {
        "5"
    } else if d == 6 {
        "6"
    } else if d == 7 {
        "7"
    } else if d == 8 {
        "8"
    } else {
        "9"
    };
    assert(r@ =~= seq![digit_char(d as nat)]);
    r
}

/// The digit that a character stands for.
fn digit_of(c: char) -> (r: Option<u32>)
    ensures
        match r {
            Some(d) => digit_value(c) == Some(d as nat) && d < 10,
            None => digit_value(c) is None,
        },
{
    if c == '0' {
        Some(0)
    } else if c == '1' {
        Some(1)
    } else if c == '2' {
        Some(2)
    } else if c == '3' {
        Some(3)
    } else if c == '4' {
        Some(4)
    } else if c == '5' {
        Some(5)
    } else if c == '6' {
        Some(6)
    } else if c == '7' {
        Some(7)
    } else if c == '8' {
        Some(8)
    } else if c == '9' {
        Some(9)
    } else {
        None
    }
}

/// Writes a room number in decimal.
pub fn decimal(n: u16) -> (r: String)
    ensures
        r@ == decimal_text(n as nat),
    decreases n,
{
    if n < 10 {
        String::from_str(digit_str(n))
    } else {
        let mut s = decimal(n / 10);
        s.append(digit_str(n % 10));
        assert(s@ =~= decimal_text((n / 10) as nat).push(digit_char((n % 10) as nat)));
        s
    }
}

/// Reads a room number from text.
pub fn parse_u16(s: &str) -> (r: Option<u16>)
    ensures
        r == parse_u16_text(s@),
{
    let n = s.unicode_len();
    let mut i: usize = 0;
    if n > 0 && s.get_char(0) == '+' {
        i = 1;
    }
    let start = i;
    let ghost digits = s@.skip(start as int);
    assert(digits =~= if s@.len() > 0 && s@[0] == '+' {
        s@.drop_first()
    } else {
        s@
    });
    if i >= n {
        return None;
    }
    let mut acc: u32 = 0;
    while i < n
        invariant
            start <= i <= n,
            n == s@.len(),
            digits == s@.skip(start as int),
            digits == (if s@.len() > 0 && s@[0] == '+' {
                s@.drop_first()
            } else {
                s@
            }),
            acc <= u16::MAX,
            i == start ==> acc == 0,
            i > start ==> digits_value(digits.take(i - start)) == Some(acc as nat),
        decreases n - i,
    {
        let c = s.get_char(i);
        let ghost k = i - start;
        assert(digits[k] == c);
        let d = match digit_of(c) {
            None => {
                proof {
                    lemma_digits_all_digits(digits, k);
                }
                return None;
            },
            Some(d) => d,
        };
        proof {
            lemma_digits_step(digits, k, acc as nat, d as nat);
        }
        acc = acc * 10 + d;
        if acc > u16::MAX as u32 {
            proof {
                if digits_value(digits) is Some {
                    lemma_digits_prefix(digits, k + 1);
                }
            }
            return None;
        }
        i += 1;
    }
    assert(digits.take(n - start) =~= digits);
    Some(acc as u16)
}

/// The text `middle` between `prefix` and `suffix`.
pub fn between(prefix: &str, middle: &str, suffix: &str) -> (r: String)
    ensures
        r@ == prefix@ + middle@ + suffix@,
{
    let mut r = String::from_str(prefix);
    r.append(middle);
    r.append(suffix);
    r
}

/// Bytes as a list of decimal numbers, separated by a comma and a space.
pub open spec fn byte_list_text(bytes: Seq<u8>) -> Seq<char>
    decreases bytes.len(),
{
    if bytes.len() == 0 {
        Seq::empty()
    } else if bytes.len() == 1 {
        decimal_text(bytes[0] as nat)
    } else {
        byte_list_text(bytes.drop_last()) + ", "@ + decimal_text(bytes.last() as nat)
    }
}

/// Writes bytes as a list of decimal numbers.
pub fn byte_list(bytes: &[u8]) -> (r: String)
    ensures
        r@ == byte_list_text(bytes@),
{
    let mut r = String::from_str("");
    proof {
        reveal_strlit("");
        assert(""@ =~= Seq::<char>::empty());
        assert(bytes@.take(0) =~= Seq::<u8>::empty());
    }
    let mut i: usize = 0;
    while i < bytes.len()
        invariant
            i <= bytes@.len(),
            r@ == byte_list_text(bytes@.take(i as int)),
        decreases bytes@.len() - i,
    {
        let ghost longer = bytes@.take(i + 1);
        assert(longer.drop_last() =~= bytes@.take(i as int));
        assert(longer.last() == bytes@[i as int]);
        if i > 0 {
            r.append(", ");
        }
        let number = decimal(bytes[i] as u16);
        r.append(number.as_str());
        proof {
            if i == 0 {
                assert(r@ =~= decimal_text(bytes@[0] as nat));
            }
        }
        i += 1;
    }
    assert(bytes@.take(bytes@.len() as int) =~= bytes@);
    r
}

} // verus!
