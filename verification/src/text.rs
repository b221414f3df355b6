//! Text: comparing strings, telling literals apart, and decimal digits.

use vstd::prelude::*;
use vstd::string::StringExecFns;

verus! {

/// `<str as PartialEq>::eq` of the standard library, which is believed, not
/// proved: two texts are equal exactly when they have the same characters.
pub assume_specification[ <str as PartialEq>::eq ](a: &str, b: &str) -> (r: bool)
    ensures
        r == (a@ == b@),
;

/// What tells most literals apart at a glance: the length, the first and the
/// last character.
pub open spec fn shape(s: Seq<char>) -> (nat, char, char) {
    (s.len(), s.first(), s.last())
}

/// The larger of two numbers.
pub open spec fn larger(a: nat, b: nat) -> nat {
    if a >= b {
        a
    } else {
        b
    }
}

/// The character of the digit `d`.
pub open spec fn digit_char(d: nat) -> char
    recommends
        d < 10,
{
    if d == 0 {
        '0'
    } else if d == 1 {
        '1'
    } else if d == 2 {
        '2'
    } else if d == 3 {
        '3'
    } else if d == 4 {
        '4'
    } else if d == 5 {
        '5'
    } else if d == 6 {
        '6'
    } else if d == 7 {
        '7'
    } else if d == 8 {
        '8'
    } else {
        '9'
    }
}

/// Whether `c` is one of `0` to `9`.
pub open spec fn is_digit(c: char) -> bool {
    '0' <= c <= '9'
}

/// The number that the digit `c` stands for.
pub open spec fn digit_value(c: char) -> nat
    recommends
        is_digit(c),
{
    (c as nat - '0' as nat) as nat
}

/// `n` in decimal digits, without leading zeros.
pub open spec fn decimal(n: nat) -> Seq<char>
    decreases n,
{
    if n < 10 {
        seq![digit_char(n)]
    } else {
        decimal(n / 10).push(digit_char(n % 10))
    }
}

/// Whether `s` holds digits only.
pub open spec fn all_digits(s: Seq<char>) -> bool {
    forall|i: int| 0 <= i < s.len() ==> is_digit(#[trigger] s[i])
}

/// The number that the digits of `s` spell; 0 for the empty sequence.
pub open spec fn digits_value(s: Seq<char>) -> nat
    decreases s.len(),
{
    if s.len() == 0 {
        0
    } else {
        digits_value(s.drop_last()) * 10 + digit_value(s.last())
    }
}

/// The number that `s` spells, where `s` is one digit or more.
pub open spec fn parse_decimal(s: Seq<char>) -> Option<nat> {
    if s.len() > 0 && all_digits(s) {
        Some(digits_value(s))
    } else {
        None
    }
}

/// `n` pixels as a text: the digits of `n` and `px`.
pub open spec fn pixels(n: nat) -> Seq<char> {
    decimal(n).push('p').push('x')
}

/// The number of pixels that `s` spells: `s` is one digit or more, then `px`,
/// and the number fits `u32`.
pub open spec fn parse_pixels(s: Seq<char>) -> Option<u32> {
    if s.len() >= 2 && s[s.len() - 2] == 'p' && s[s.len() - 1] == 'x' {
        match parse_decimal(s.take(s.len() - 2)) {
            Some(n) => if n <= u32::MAX {
                Some(n as u32)
            } else {
                None
            },
            None => None,
        }
    } else {
        None
    }
}

/// The digits of a number spell that number.
pub proof fn lemma_decimal_parses(n: nat)
    ensures
        parse_decimal(decimal(n)) == Some(n),
    decreases n,
{
    if n >= 10 {
        lemma_decimal_parses(n / 10);
        let head = decimal(n / 10);
        let s = decimal(n);
        assert(s.drop_last() =~= head);
        assert(s.last() == digit_char(n % 10));
        assert forall|i: int| 0 <= i < s.len() implies is_digit(#[trigger] s[i]) by {
            if i < head.len() {
                assert(s[i] == head[i]);
            }
        }
    } else {
        let s = decimal(n);
        assert(s.drop_last() =~= Seq::<char>::empty());
        assert(digits_value(s.drop_last()) == 0);
    }
}

/// A number has at least one digit.
pub proof fn lemma_decimal_len(n: nat)
    ensures
        decimal(n).len() >= 1,
    decreases n,
{
    if n >= 10 {
        lemma_decimal_len(n / 10);
    }
}

/// Reading more digits never gives a smaller number.
pub proof fn lemma_digits_value_grows(s: Seq<char>, k: int)
    requires
        0 <= k <= s.len(),
    ensures
        digits_value(s.take(k)) <= digits_value(s),
    decreases s.len() - k,
{
    if k < s.len() {
        lemma_digits_value_grows(s, k + 1);
        assert(s.take(k + 1).drop_last() =~= s.take(k));
    } else {
        assert(s.take(k) =~= s);
    }
}

/// The text of a number of pixels spells that number.
pub proof fn lemma_pixels_parse(n: u32)
    ensures
        parse_pixels(pixels(n as nat)) == Some(n),
{
    lemma_decimal_parses(n as nat);
    let s = pixels(n as nat);
    assert(s.take(s.len() - 2) =~= decimal(n as nat));
}

/// The text of a number of pixels is neither `auto` nor `stretch`.
pub proof fn lemma_pixels_end(n: nat)
    ensures
        pixels(n).len() >= 3,
        pixels(n).last() == 'x',
{
    lemma_decimal_len(n);
}

/// The text of the digit `d`.
fn digit_text(d: u32) -> (r: &'static str)
    requires
        d < 10,
    ensures
        r@ == seq![digit_char(d as nat)],
{
    proof {
        reveal_strlit("0");
        reveal_strlit("1");
        reveal_strlit("2");
        reveal_strlit("3");
        reveal_strlit("4");
        reveal_strlit("5");
        reveal_strlit("6");
        reveal_strlit("7");
        reveal_strlit("8");
        reveal_strlit("9");
    }
    let r = if d == 0 {
        "0"
    } else if d == 1 {
        "1"
    } else if d == 2 {
        "2"
    } else if d == 3 {
        "3"
    } else if d == 4 {
        "4"
    } else if d == 5 {
        "5"
    } else if d == 6 {
        "6"
    } else if d == 7 {
        "7"
    } else if d == 8 {
        "8"
    } else {
        "9"
    };
    assert(r@ =~= seq![digit_char(d as nat)]);
    r
}

/// `n` in decimal digits.
pub fn decimal_text(n: u32) -> (r: String)
    ensures
        r@ == decimal(n as nat),
    decreases n,
{
    if n < 10 {
        String::from_str(digit_text(n))
    } else {
        let head = decimal_text(n / 10);
        let r = head.concat(digit_text(n % 10));
        assert(r@ =~= decimal(n as nat));
        r
    }
}

/// The number that the first `len` characters of the ASCII text `s` spell,
/// where they are digits, one or more, and the number fits `u32`.
pub fn parse_decimal_prefix(s: &str, len: usize) -> (r: Option<u32>)
    requires
        s.is_ascii(),
        len <= s@.len(),
    ensures
        r == match parse_decimal(s@.take(len as int)) {
            Some(n) => if n <= u32::MAX { Some(n as u32) } else { None },
            None => None,
        },
{
    if len == 0 {
        return None;
    }
    let ghost digits = s@.take(len as int);
    let mut acc: u64 = 0;
    let mut i: usize = 0;
    while i < len
        invariant
            s.is_ascii(),
            len <= s@.len(),
            digits == s@.take(len as int),
            i <= len,
            all_digits(digits.take(i as int)),
            acc == digits_value(digits.take(i as int)),
            acc <= u32::MAX,
        decreases len - i,
    {
        let b = s.get_ascii(i);
        assert(digits[i as int] == s@[i as int]);
        if b < 48 || b > 57 {
            assert(!is_digit(digits[i as int]));
            return None;
        }
        let d: u64 = (b - 48) as u64;
        assert(d == digit_value(digits[i as int]));
        let next: u64 = acc * 10 + d;
        proof {
            let grown = digits.take(i + 1);
            assert(grown.drop_last() =~= digits.take(i as int));
            assert(grown.last() == digits[i as int]);
            assert(next == digits_value(grown));
            assert forall|k: int| 0 <= k < grown.len() implies is_digit(#[trigger] grown[k]) by {
                if k < i {
                    assert(grown[k] == digits.take(i as int)[k]);
                }
            }
        }
        if next > 0xffff_ffff {
            proof {
                lemma_digits_value_grows(digits, i + 1);
                if all_digits(digits) {
                    assert(digits_value(digits) > u32::MAX);
                } else {
                }
            }
            return None;
        }
        acc = next;
        i += 1;
    }
    assert(digits.take(len as int) =~= digits);
    Some(acc as u32)
}

/// `n` pixels as a text.
pub fn pixels_text(n: u32) -> (r: String)
    ensures
        r@ == pixels(n as nat),
{
    let r = decimal_text(n).concat("px");
    proof {
        reveal_strlit("px");
        assert(r@ =~= pixels(n as nat));
    }
    r
}

/// The number of pixels that `s` spells, if it spells one.
pub fn parse_pixels_text(s: &str) -> (r: Option<u32>)
    ensures
        r == parse_pixels(s@),
{
    if !s.is_ascii() {
        proof {
            let n = s@.len() - 2;
            if s@.len() >= 2 && s@[n] == 'p' && s@[n + 1] == 'x' && all_digits(s@.take(n)) {
                assert forall|i: int| 0 <= i < s@.len() implies
                    '\0' <= #[trigger] s@[i] <= '\u{7f}' by {
                    if i < n {
                        assert(is_digit(s@.take(n)[i]));
                    }
                }
            }
        }
        return None;
    }
    let len = s.unicode_len();
    if len < 2 {
        return None;
    }
    let p = s.get_ascii(len - 2);
    let x = s.get_ascii(len - 1);
    if p != 112 || x != 120 {
        return None;
    }
    parse_decimal_prefix(s, len - 2)
}

} // verus!
