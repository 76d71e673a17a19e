//! The discriminator of a user: a small number that the service writes as
//! four decimal digits, zero-padded.

use vstd::prelude::*;
use vstd::string::StringExecFns;
use crate::error::DecodeError;

verus! {

/// Whether a character is a decimal digit.
pub open spec fn is_digit(c: char) -> bool {
    '0' <= c && c <= '9'
}

/// The number that a decimal digit stands for.
pub open spec fn digit_value(c: char) -> nat {
    (c as u32 - '0' as u32) as nat
}

/// The decimal digit of a number below ten.
pub open spec fn digit_char(d: int) -> char {
    if d == 0 {
        '0'
    } else if d == 1 {
        '1'
    } else if d == 2 {
        '2'
    } else if d == 3 {
        '3'
    } else if d == 4 {
        '4'
    } else if d == 5 {
        '5'
    } else if d == 6 {
        '6'
    } else if d == 7 {
        '7'
    } else if d == 8 {
        '8'
    } else {
        '9'
    }
}

/// Whether a text is made of decimal digits, one at least.
pub open spec fn is_decimal(text: Seq<char>) -> bool {
    text.len() > 0 && forall|i: int| 0 <= i < text.len() ==> is_digit(#[trigger] text[i])
}

/// The number that a text of decimal digits denotes.
pub open spec fn decimal_value(text: Seq<char>) -> nat
    decreases text.len(),
{
    if text.len() == 0 {
        0
    } else {
        decimal_value(text.drop_last()) * 10 + digit_value(text.last())
    }
}

/// The discriminator that a wire text stands for: the text is made of
/// decimal digits and denotes a number of sixteen bits.
pub open spec fn decoded(text: Seq<char>) -> Option<u16> {
    if is_decimal(text) && decimal_value(text) <= u16::MAX {
        Some(decimal_value(text) as u16)
    } else {
        None
    }
}

/// The wire text of a discriminator: its decimal digits, padded with zeros
/// to four.
pub open spec fn encoded(value: u16) -> Seq<char> {
    let low = seq![
        digit_char(value as int / 1000 % 10),
        digit_char(value as int / 100 % 10),
        digit_char(value as int / 10 % 10),
        digit_char(value as int % 10),
    ];
    if value >= 10000 {
        seq![digit_char(value as int / 10000)] + low
    } else {
        low
    }
}

/// A text denotes at least what any of its beginnings denotes.
pub proof fn lemma_value_grows(text: Seq<char>, n: int)
    requires
        0 <= n <= text.len(),
    ensures
        decimal_value(text.take(n)) <= decimal_value(text),
    decreases text.len(),
{
    if n == text.len() {
        assert(text.take(n) =~= text);
    } else {
        lemma_value_grows(text.drop_last(), n);
        assert(text.drop_last().take(n) =~= text.take(n));
        assert(decimal_value(text.drop_last()) <= decimal_value(text.drop_last()) * 10)
            by (nonlinear_arith);
    }
}

/// Decodes the wire text of a discriminator. Fails exactly where the text
/// is not made of decimal digits or denotes more than sixteen bits hold.
pub fn decode(text: &str) -> (value: Result<u16, DecodeError>)
    ensures
        match value {
            Ok(v) => decoded(text@) == Some(v),
            Err(e) => decoded(text@).is_none() && e == DecodeError::WrongShape,
        },
{
    broadcast use vstd::string::group_string_axioms;

    let mut value: u32 = 0;
    let mut any = false;
    for c in it: text.chars()
        invariant
            it.seq() == text@,
            any == (it.index() > 0),
            value == decimal_value(text@.take(it.index() as int)),
            value <= u16::MAX,
            forall|i: int| 0 <= i < it.index() ==> is_digit(#[trigger] text@[i]),
    {
        let ghost n = it.index() as int;
        proof {
            assert(text@.take(n + 1).drop_last() =~= text@.take(n));
            assert(text@.take(n + 1).last() == c);
        }
        if !('0' <= c && c <= '9') {
            return Err(DecodeError::WrongShape);
        }
        let digit: u32 = (c as u32) - ('0' as u32);
        let next: u32 = value * 10 + digit;
        if next > 65535 {
            proof {
                lemma_value_grows(text@, n + 1);
            }
            return Err(DecodeError::WrongShape);
        }
        value = next;
        any = true;
    }
    proof {
        assert(text@.take(text@.len() as int) =~= text@);
    }
    if !any {
        return Err(DecodeError::WrongShape);
    }
    Ok(value as u16)
}

/// Decodes the discriminator field of a record, which is absent where the
/// service has nothing to say: an absent field is no discriminator and no
/// failure.
pub fn decode_option(text: Option<&str>) -> (value: Result<Option<u16>, DecodeError>)
    ensures
        match text {
            None => value == Ok::<Option<u16>, DecodeError>(None),
            Some(t) => match decoded(t@) {
                Some(v) => value == Ok::<Option<u16>, DecodeError>(Some(v)),
                None => value == Err::<Option<u16>, DecodeError>(DecodeError::WrongShape),
            },
        },
{
    match text {
        None => Ok(None),
        Some(t) => match decode(t) {
            Ok(v) => Ok(Some(v)),
            Err(e) => Err(e),
        },
    }
}

/// The text of one decimal digit.
fn digit_text(d: u16) -> (text: &'static str)
    requires
        d < 10,
    ensures
        text@ == seq![digit_char(d as int)],
{
    proof {
        reveal_strlit("0");
        reveal_strlit("1");
        reveal_strlit("2");
        reveal_strlit("3");
        reveal_strlit("4");
        reveal_strlit("5");
        reveal_strlit("6");
        reveal_strlit("7");
        reveal_strlit("8");
        reveal_strlit("9");
    }
    let text = match d {
        0 => "0",
        1 => "1",
        2 => "2",
        3 => "3",
        4 => "4",
        5 => "5",
        6 => "6",
        7 => "7",
        8 => "8",
        _ => "9",
    };
    assert(text@ =~= seq![digit_char(d as int)]);
    text
}

/// Encodes a discriminator as its wire text: four digits, zero-padded, and
/// five where the number needs them.
pub fn encode(value: u16) -> (text: String)
    ensures
        text@ == encoded(value),
{
    let mut text = String::new();
    if value >= 10000 {
        text.append(digit_text(value / 10000));
    }
    text.append(digit_text(value / 1000 % 10));
    text.append(digit_text(value / 100 % 10));
    text.append(digit_text(value / 10 % 10));
    text.append(digit_text(value % 10));
    assert(text@ =~= encoded(value));
    text
}

/// Encodes the discriminator field of a record: an absent discriminator is
/// left out, not written as an empty text.
pub fn encode_option(value: Option<u16>) -> (text: Option<String>)
    ensures
        match value {
            Some(v) => text.is_some() && text.unwrap()@ == encoded(v),
            None => text.is_none(),
        },
{
    match value {
        Some(v) => Some(encode(v)),
        None => None,
    }
}

/// The value of a text with one more digit at its end.
proof fn lemma_value_push(text: Seq<char>, c: char)
    ensures
        decimal_value(text.push(c)) == decimal_value(text) * 10 + digit_value(c),
{
    assert(text.push(c).drop_last() =~= text);
}

/// A digit's character is a digit and stands for it.
proof fn lemma_digit_char(d: int)
    requires
        0 <= d <= 9,
    ensures
        is_digit(digit_char(d)),
        digit_value(digit_char(d)) == d,
{
}

/// A number of sixteen bits is the sum of its five decimal digits, each by
/// its power of ten.
proof fn lemma_decimal_digits(v: int)
    requires
        0 <= v <= 65535,
    ensures
        0 <= v / 10000 <= 6,
        0 <= v / 1000 % 10 <= 9,
        0 <= v / 100 % 10 <= 9,
        0 <= v / 10 % 10 <= 9,
        0 <= v % 10 <= 9,
        v == (v / 10000) * 10000 + (v / 1000 % 10) * 1000 + (v / 100 % 10) * 100 + (v / 10 % 10)
            * 10 + v % 10,
{
    let a = v / 10;
    let b = v / 100;
    let c = v / 1000;
    let d = v / 10000;
    assert(v == a * 10 + v % 10);
    assert(b == a / 10);
    assert(a == b * 10 + a % 10);
    assert(c == b / 10);
    assert(b == c * 10 + b % 10);
    assert(d == c / 10);
    assert(c == d * 10 + c % 10);
}

/// The value of a text of five digits, or of four where `head` is empty.
proof fn lemma_value_of_digits(head: Seq<char>, d3: int, d2: int, d1: int, d0: int)
    requires
        0 <= d3 <= 9,
        0 <= d2 <= 9,
        0 <= d1 <= 9,
        0 <= d0 <= 9,
    ensures
        decimal_value(
            head + seq![digit_char(d3), digit_char(d2), digit_char(d1), digit_char(d0)],
        ) == decimal_value(head) * 10000 + d3 * 1000 + d2 * 100 + d1 * 10 + d0,
{
    let t3 = head.push(digit_char(d3));
    let t2 = t3.push(digit_char(d2));
    let t1 = t2.push(digit_char(d1));
    let t0 = t1.push(digit_char(d0));
    assert(t0 =~= head + seq![digit_char(d3), digit_char(d2), digit_char(d1), digit_char(d0)]);
    lemma_digit_char(d3);
    lemma_digit_char(d2);
    lemma_digit_char(d1);
    lemma_digit_char(d0);
    lemma_value_push(head, digit_char(d3));
    lemma_value_push(t3, digit_char(d2));
    lemma_value_push(t2, digit_char(d1));
    lemma_value_push(t1, digit_char(d0));
}

/// The wire text of a discriminator is made of four or five decimal digits
/// and decodes to the discriminator: nothing is lost on the way out and back.
pub proof fn lemma_encode_then_decode(value: u16)
    ensures
        is_decimal(encoded(value)),
        encoded(value).len() == if value >= 10000 {
            5nat
        } else {
            4nat
        },
        decimal_value(encoded(value)) == value,
        decoded(encoded(value)) == Some(value),
{
    let v = value as int;
    lemma_decimal_digits(v);
    let d4 = v / 10000;
    let d3 = v / 1000 % 10;
    let d2 = v / 100 % 10;
    let d1 = v / 10 % 10;
    let d0 = v % 10;
    lemma_digit_char(d4);
    lemma_digit_char(d3);
    lemma_digit_char(d2);
    lemma_digit_char(d1);
    lemma_digit_char(d0);
    let e = Seq::<char>::empty();
    let head = if value >= 10000 {
        seq![digit_char(d4)]
    } else {
        e
    };
    let low = seq![digit_char(d3), digit_char(d2), digit_char(d1), digit_char(d0)];
    assert(encoded(value) =~= head + low);
    assert(decimal_value(e) == 0);
    if value >= 10000 {
        lemma_value_push(e, digit_char(d4));
        assert(e.push(digit_char(d4)) =~= head);
    }
    assert(decimal_value(head) == d4);
    lemma_value_of_digits(head, d3, d2, d1, d0);
    let text = head + low;
    assert forall|i: int| 0 <= i < text.len() implies is_digit(#[trigger] text[i]) by {
        if i < head.len() {
            assert(text[i] == digit_char(d4));
        } else {
            let j = i - head.len();
            assert(text[i] == low[j]);
        }
    }
}

/// A text that decodes is made of digits, and padding it with a zero in
/// front changes nothing of what it decodes to.
pub proof fn lemma_leading_zero(text: Seq<char>)
    requires
        is_decimal(text),
    ensures
        is_decimal(seq!['0'] + text),
        decimal_value(seq!['0'] + text) == decimal_value(text),
        decoded(seq!['0'] + text) == decoded(text),
    decreases text.len(),
{
    let padded = seq!['0'] + text;
    assert forall|i: int| 0 <= i < padded.len() implies is_digit(#[trigger] padded[i]) by {
        if i > 0 {
            assert(padded[i] == text[i - 1]);
        }
    }
    if text.len() == 1 {
        assert(padded.drop_last() =~= seq!['0']);
        assert(seq!['0'].drop_last() =~= Seq::<char>::empty());
        assert(decimal_value(Seq::<char>::empty()) == 0);
        assert(decimal_value(seq!['0']) == 0);
        assert(text.drop_last() =~= Seq::<char>::empty());
    } else {
        let shorter = text.drop_last();
        assert(is_decimal(shorter));
        lemma_leading_zero(shorter);
        assert(padded.drop_last() =~= seq!['0'] + shorter);
        assert(padded.last() == text.last());
    }
}

} // verus!
