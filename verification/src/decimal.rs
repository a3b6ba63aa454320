//! Decimal numerals: the exchange writes its integers as strings of digits.

use vstd::prelude::*;
use vstd::string::StringExecFns;

verus! {

/// Whether a character is one of the ten ASCII digits.
pub open spec fn is_digit(c: char) -> bool {
    '0' <= c <= '9'
}

/// The number that a digit stands for.
pub open spec fn digit_value(c: char) -> int {
    c as int - '0' as int
}

/// Whether every character of a text is a digit.
pub open spec fn all_digits(s: Seq<char>) -> bool {
    forall|i: int| 0 <= i < s.len() ==> is_digit(#[trigger] s[i])
}

/// The number that a run of digits stands for, most significant digit first.
pub open spec fn digits_value(s: Seq<char>) -> int
    decreases s.len(),
{
    if s.len() == 0 {
        0
    } else {
        10 * digits_value(s.drop_last()) + digit_value(s.last())
    }
}

/// A numeral without the one `+` that may stand in front of it.
pub open spec fn without_plus(s: Seq<char>) -> Seq<char> {
    if s.len() > 0 && s[0] == '+' {
        s.drop_first()
    } else {
        s
    }
}

/// The 16-bit number that a text stands for: an optional `+`, then at least
/// one digit and nothing but digits, with a value of at most 65535. Leading
/// zeros are allowed. Any other text stands for no number.
pub open spec fn decimal_u16(s: Seq<char>) -> Option<u16> {
    let digits = without_plus(s);
    if digits.len() > 0 && all_digits(digits) && digits_value(digits) <= u16::MAX {
        Some(digits_value(digits) as u16)
    } else {
        None
    }
}

/// The digit that stands for a number below ten.
pub open spec fn digit_char(d: int) -> char {
    if d == 0 {
        '0'
    } else if d == 1 {
        '1'
    } else if d == 2 {
        '2'
    } else if d == 3 {
        '3'
    } else if d == 4 {
        '4'
    } else if d == 5 {
        '5'
    } else if d == 6 {
        '6'
    } else if d == 7 {
        '7'
    } else if d == 8 {
        '8'
    } else {
        '9'
    }
}

/// The shortest numeral of a number: no sign and no leading zero, `0` for
/// zero.
pub open spec fn decimal_text(n: nat) -> Seq<char>
    decreases n,
{
    if n < 10 {
        seq![digit_char(n as int)]
    } else {
        decimal_text(n / 10).push(digit_char((n % 10) as int))
    }
}

/// The value of a run of digits does not shrink when more digits follow.
proof fn lemma_digits_value_grows(s: Seq<char>, k: int)
    requires
        all_digits(s),
        0 <= k <= s.len(),
    ensures
        0 <= digits_value(s.take(k)) <= digits_value(s),
    decreases s.len() - k,
{
    lemma_digits_value_nonnegative(s.take(k));
    if k == s.len() {
        assert(s.take(k) =~= s);
    } else {
        lemma_digits_value_grows(s, k + 1);
        let longer = s.take(k + 1);
        assert(longer.drop_last() =~= s.take(k));
        assert(is_digit(longer.last()));
    }
}

/// A run of digits stands for a number that is not negative.
proof fn lemma_digits_value_nonnegative(s: Seq<char>)
    requires
        all_digits(s),
    ensures
        0 <= digits_value(s),
    decreases s.len(),
{
    if s.len() > 0 {
        assert(is_digit(s.last()));
        lemma_digits_value_nonnegative(s.drop_last());
    }
}

/// Reads a 16-bit number from its decimal numeral.
pub fn parse_u16(text: &str) -> (number: Option<u16>)
    ensures
        number == decimal_u16(text@),
{
    if !text.is_ascii() {
        proof {
            // A character beyond ASCII is neither the sign nor a digit.
            let s = text@;
            let i = choose|i: int| 0 <= i < s.len() && !('\0' <= #[trigger] s[i] <= '\u{7f}');
            let digits = without_plus(s);
            if digits.len() == s.len() {
                assert(!is_digit(digits[i]));
            } else {
                assert(digits[i - 1] == s[i]);
                assert(!is_digit(digits[i - 1]));
            }
        }
        return None;
    }
    let bytes = text.as_bytes();
    proof {
        vstd::utf8::is_ascii_chars_encode_utf8(text@);
    }
    let n = bytes.len();
    let start: usize = if n > 0 && bytes[0] == 43u8 {
        1
    } else {
        0
    };
    let ghost digits = without_plus(text@);
    assert(digits.len() == n - start);
    assert(forall|j: int| 0 <= j < digits.len() ==> digits[j] == text@[j + start]);
    if start == n {
        return None;
    }
    let mut value: u32 = 0;
    let mut i: usize = start;
    while i < n
        invariant
            start <= i <= n,
            n == bytes@.len(),
            n == text@.len(),
            digits == without_plus(text@),
            digits.len() == n - start,
            forall|j: int| 0 <= j < n ==> bytes@[j] == text@[j] as u8,
            forall|j: int| 0 <= j < n ==> '\0' <= #[trigger] text@[j] <= '\u{7f}',
            forall|j: int| 0 <= j < digits.len() ==> digits[j] == text@[j + start],
            all_digits(digits.take(i - start)),
            value == digits_value(digits.take(i - start)),
            value <= u16::MAX,
        decreases n - i,
    {
        let b = bytes[i];
        let ghost k = i - start;
        assert(digits[k] == text@[i as int]);
        assert(digits.take(k + 1).drop_last() =~= digits.take(k));
        assert(digits.take(k + 1).last() == digits[k]);
        if b < 48u8 || b > 57u8 {
            assert(!is_digit(digits[k]));
            return None;
        }
        assert(is_digit(digits[k]));
        assert(digit_value(digits[k]) == b - 48);
        assert(all_digits(digits.take(k + 1))) by {
            assert forall|j: int| 0 <= j < k + 1 implies is_digit(
                #[trigger] digits.take(k + 1)[j],
            ) by {
                if j < k {
                    assert(digits.take(k)[j] == digits[j]);
                }
            }
        }
        let next: u32 = value * 10 + (b - 48u8) as u32;
        if next > 0xFFFF {
            proof {
                if all_digits(digits) {
                    lemma_digits_value_grows(digits, k + 1);
                }
            }
            return None;
        }
        value = next;
        i += 1;
    }
    assert(digits.take(n - start) =~= digits);
    Some(value as u16)
}

/// The one-character text of a digit.
fn digit_str(d: u16) -> (text: &'static str)
    requires
        d < 10,
    ensures
        text@ == seq![digit_char(d as int)],
{
    proof {
        reveal_strlit("0");
        reveal_strlit("1");
        reveal_strlit("2");
        reveal_strlit("3");
        reveal_strlit("4");
        reveal_strlit("5");
        reveal_strlit("6");
        reveal_strlit("7");
        reveal_strlit("8");
        reveal_strlit("9");
    }
    let text = if d == 0 {
        "0"
    } else if d == 1 {
        "1"
    } else if d == 2 {
        "2"
    } else if d == 3 {
        "3"
    } else if d == 4 {
        "4"
    } else if d == 5 {
        "5"
    } else if d == 6 {
        "6"
    } else if d == 7 {
        "7"
    } else if d == 8 {
        "8"
    } else {
        "9"
    };
    assert(text@ =~= seq![digit_char(d as int)]);
    text
}

/// Writes a 16-bit number as its shortest decimal numeral.
pub fn u16_text(n: u16) -> (text: String)
    ensures
        text@ == decimal_text(n as nat),
    decreases n,
{
    if n < 10 {
        String::from_str(digit_str(n))
    } else {
        let mut text = u16_text(n / 10);
        text.append(digit_str(n % 10));
        text
    }
}

/// The shortest numeral of a number is made of digits, at least one, and
/// stands for the number.
pub proof fn lemma_decimal_text_value(n: nat)
    ensures
        decimal_text(n).len() > 0,
        all_digits(decimal_text(n)),
        digits_value(decimal_text(n)) == n,
    decreases n,
{
    if n < 10 {
        let s = decimal_text(n);
        assert(s.drop_last() =~= Seq::<char>::empty());
        assert(digits_value(s.drop_last()) == 0);
    } else {
        lemma_decimal_text_value(n / 10);
        let head = decimal_text(n / 10);
        let s = decimal_text(n);
        assert(s.drop_last() =~= head);
        assert(s.last() == digit_char((n % 10) as int));
        assert forall|i: int| 0 <= i < s.len() implies is_digit(#[trigger] s[i]) by {
            if i < head.len() {
                assert(s[i] == head[i]);
            }
        }
    }
}

/// What is written is read back: the numeral that `u16_text` writes for a
/// number is one that `parse_u16` reads as that number.
pub proof fn lemma_numeral_reads_back(n: u16)
    ensures
        decimal_u16(decimal_text(n as nat)) == Some(n),
{
    lemma_decimal_text_value(n as nat);
    let s = decimal_text(n as nat);
    assert(is_digit(s[0]));
    assert(without_plus(s) == s);
}

} // verus!
