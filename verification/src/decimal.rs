//! Decimal numerals: what a run of characters denotes as an unsigned integer,
//! and the numeral that denotes a given integer.

use vstd::prelude::*;
use vstd::string::StringExecFns;

verus! {

/// Whether `c` is one of the ten decimal digits.
pub open spec fn is_digit(c: char) -> bool {
    '0' as u32 <= c as u32 <= '9' as u32
}

/// The value of a decimal digit.
pub open spec fn digit_value(c: char) -> nat
    recommends
        is_digit(c),
{
    (c as u32 - '0' as u32) as nat
}

/// The digit that stands for a value below ten.
pub open spec fn digit_char(d: nat) -> char
    recommends
        d < 10,
{
    if d == 0 {
        '0'
    } else if d == 1 {
        '1'
    } else if d == 2 {
        '2'
    } else if d == 3 {
        '3'
    } else if d == 4 {
        '4'
    } else if d == 5 {
        '5'
    } else if d == 6 {
        '6'
    } else if d == 7 {
        '7'
    } else if d == 8 {
        '8'
    } else {
        '9'
    }
}

/// Whether `s` consists of decimal digits only.
pub open spec fn all_digits(s: Seq<char>) -> bool {
    forall|i: int| 0 <= i < s.len() ==> is_digit(#[trigger] s[i])
}

/// The number that a run of digits denotes, most significant digit first.
pub open spec fn decimal_value(s: Seq<char>) -> nat
    decreases s.len(),
{
    if s.len() == 0 {
        0
    } else {
        decimal_value(s.drop_last()) * 10 + digit_value(s.last())
    }
}

/// The digits of a numeral: the numeral itself, or what follows its plus sign.
pub open spec fn unsigned_part(s: Seq<char>) -> Seq<char> {
    if s.len() > 0 && s[0] == '+' {
        s.drop_first()
    } else {
        s
    }
}

/// Whether `s` is a numeral: an optional plus sign, then one digit or more.
pub open spec fn is_numeral(s: Seq<char>) -> bool {
    unsigned_part(s).len() > 0 && all_digits(unsigned_part(s))
}

/// The 32-bit identifier that `s` denotes, if it is a numeral whose value
/// fits. Leading zeros are accepted; a minus sign, an empty string, a lone
/// sign and anything that is not a digit are not.
pub open spec fn parse_u32(s: Seq<char>) -> Option<u32> {
    if is_numeral(s) && decimal_value(unsigned_part(s)) <= u32::MAX {
        Some(decimal_value(unsigned_part(s)) as u32)
    } else {
        None
    }
}

/// The shortest numeral for `n`: no sign and no leading zero.
pub open spec fn decimal_digits(n: nat) -> Seq<char>
    decreases n,
{
    if n < 10 {
        seq![digit_char(n)]
    } else {
        decimal_digits(n / 10).push(digit_char(n % 10))
    }
}

/// A run of digits denotes at least what any of its prefixes denotes.
pub proof fn lemma_value_grows(s: Seq<char>, k: int)
    requires
        0 <= k <= s.len(),
    ensures
        decimal_value(s.subrange(0, k)) <= decimal_value(s),
    decreases s.len(),
{
    if k == s.len() {
        assert(s.subrange(0, k) =~= s);
    } else {
        lemma_value_grows(s.drop_last(), k);
        assert(s.drop_last().subrange(0, k) =~= s.subrange(0, k));
    }
}

/// The numeral written for `n` consists of digits, is not empty, and denotes `n`.
pub proof fn lemma_digits_denote(n: nat)
    ensures
        decimal_digits(n).len() > 0,
        all_digits(decimal_digits(n)),
        decimal_value(decimal_digits(n)) == n,
    decreases n,
{
    if n < 10 {
        let s = decimal_digits(n);
        assert(s.drop_last() =~= Seq::<char>::empty());
        assert(decimal_value(s.drop_last()) == 0);
    } else {
        lemma_digits_denote(n / 10);
        let s = decimal_digits(n);
        assert(s.drop_last() =~= decimal_digits(n / 10));
    }
}

/// Writing an identifier as a numeral and reading the numeral back gives
/// the identifier.
pub proof fn lemma_parse_of_digits(n: u32)
    ensures
        parse_u32(decimal_digits(n as nat)) == Some(n),
{
    lemma_digits_denote(n as nat);
}

/// Reads the characters of `chars` from `from` up to, not including, `to` as
/// an identifier.
pub fn parse_u32_in(chars: &Vec<char>, from: usize, to: usize) -> (r: Option<u32>)
    requires
        from <= to <= chars.len(),
    ensures
        r == parse_u32(chars@.subrange(from as int, to as int)),
{
    let ghost s = chars@.subrange(from as int, to as int);
    let mut i: usize = from;
    if i < to && chars[i] == '+' {
        i += 1;
    }
    let start = i;
    let ghost digits = chars@.subrange(start as int, to as int);
    assert(digits =~= unsigned_part(s));
    if i == to {
        return None;
    }
    let mut acc: u32 = 0;
    while i < to
        invariant
            start <= i <= to <= chars.len(),
            s == chars@.subrange(from as int, to as int),
            digits == chars@.subrange(start as int, to as int),
            digits == unsigned_part(s),
            digits.len() > 0,
            all_digits(digits.subrange(0, i - start)),
            acc == decimal_value(digits.subrange(0, i - start)),
        decreases to - i,
    {
        let c = chars[i];
        let ghost before = digits.subrange(0, i - start);
        let ghost after = digits.subrange(0, i + 1 - start);
        assert(after.drop_last() =~= before);
        assert(after.last() == c);
        assert(digits[i - start] == c);
        let u: u32 = c as u32;
        if u < 48 || u > 57 {
            assert(!is_digit(digits[i - start]));
            return None;
        }
        let d: u32 = u - 48;
        if acc > 429496729 || (acc == 429496729 && d > 5) {
            proof {
                assert(decimal_value(after) > u32::MAX);
                lemma_value_grows(digits, i + 1 - start);
            }
            return None;
        }
        acc = acc * 10 + d;
        assert(all_digits(after)) by {
            assert forall|j: int| 0 <= j < after.len() implies is_digit(#[trigger] after[j]) by {
                if j < after.len() - 1 {
                    assert(after[j] == before[j]);
                }
            }
        }
        i += 1;
    }
    assert(digits.subrange(0, to - start) =~= digits);
    Some(acc)
}

/// The one-character numeral of a value below ten.
fn digit_str(d: u32) -> (r: &'static str)
    requires
        d < 10,
    ensures
        r@ == seq![digit_char(d as nat)],
{
    proof {
        reveal_strlit("0");
        reveal_strlit("1");
        reveal_strlit("2");
        reveal_strlit("3");
        reveal_strlit("4");
        reveal_strlit("5");
        reveal_strlit("6");
        reveal_strlit("7");
        reveal_strlit("8");
        reveal_strlit("9");
    }
    let r = if d == 0 {
        "0"
    } else if d == 1 {
        "1"
    } else if d == 2 {
        "2"
    } else if d == 3 {
        "3"
    } else if d == 4 {
        "4"
    } else if d == 5 {
        "5"
    } else if d == 6 {
        "6"
    } else if d == 7 {
        "7"
    } else if d == 8 {
        "8"
    } else {
        "9"
    };
    assert(r@ =~= seq![digit_char(d as nat)]);
    r
}

/// Writes `n` as its shortest numeral.
pub fn to_decimal(n: u32) -> (r: String)
    ensures
        r@ == decimal_digits(n as nat),
    decreases n,
{
    if n < 10 {
        digit_str(n).to_owned()
    } else {
        let high = to_decimal(n / 10);
        let r = high.concat(digit_str(n % 10));
        assert(r@ =~= decimal_digits((n / 10) as nat).push(digit_char((n % 10) as nat)));
        r
    }
}

} // verus!
