use crate::amount::{all_digits, digits_value, parse_base_units_spec};
use vstd::prelude::*;
use vstd::utf8::{encode_utf8, is_ascii_chars, is_ascii_chars_encode_utf8};

verus! {

/// Appends a text with `String::push_str` of the standard library.
///
/// Trusted: the text grows by exactly the characters given.
#[verifier::external_body]
pub(crate) fn push_str(text: &mut String, more: &str)
    ensures
        final(text)@ == old(text)@ + more@,
{
    text.push_str(more)
}

/// Appends a character with `String::push` of the standard library.
///
/// Trusted: the text grows by exactly the character given.
#[verifier::external_body]
pub(crate) fn push_char(text: &mut String, c: char)
    ensures
        final(text)@ == old(text)@.push(c),
{
    text.push(c)
}

/// The character of a digit.
pub open spec fn digit_char(d: nat) -> char {
    (48 + d) as u8 as char
}

/// A number as it is written in decimal: without sign, and without a
/// leading zero but for zero itself.
pub open spec fn decimal_text(x: nat) -> Seq<char>
    decreases x,
{
    if x < 10 {
        seq![digit_char(x)]
    } else {
        decimal_text(x / 10).push(digit_char(x % 10))
    }
}

/// Appends a number in decimal.
pub fn push_decimal(text: &mut String, x: u64)
    ensures
        final(text)@ == old(text)@ + decimal_text(x as nat),
    decreases x,
{
    if x >= 10 {
        push_decimal(text, x / 10);
    }
    let digit: u8 = 48 + (x % 10) as u8;
    push_char(text, digit as char);
    assert(text@ =~= old(text)@ + decimal_text(x as nat));
}

/// A number written in decimal.
pub fn format_decimal(x: u64) -> (text: String)
    ensures
        text@ == decimal_text(x as nat),
{
    let mut text = String::new();
    assert(text@ =~= Seq::<char>::empty()) by {
        assert(text@.len() == 0);
    }
    push_decimal(&mut text, x);
    assert(text@ =~= decimal_text(x as nat));
    text
}

/// The bytes of a number written in decimal are digits that write the
/// number.
pub proof fn lemma_decimal_text_digits(x: nat)
    ensures
        is_ascii_chars(decimal_text(x)),
        decimal_text(x).len() > 0,
        all_digits(encode_utf8(decimal_text(x))),
        digits_value(encode_utf8(decimal_text(x))) == x,
    decreases x,
{
    let text = decimal_text(x);
    if x < 10 {
        assert(text.len() == 1);
        assert(text[0] == digit_char(x));
        assert(is_ascii_chars(text));
        is_ascii_chars_encode_utf8(text);
        let bytes = encode_utf8(text);
        assert(bytes[0] == text[0] as u8);
        assert(bytes.drop_last() =~= Seq::<u8>::empty());
        assert(digits_value(bytes.drop_last()) == 0);
    } else {
        let front = decimal_text(x / 10);
        lemma_decimal_text_digits(x / 10);
        assert(is_ascii_chars(text)) by {
            assert forall|i: int| 0 <= i < text.len() implies '\0' <= #[trigger] text[i]
                <= '\u{7f}' by {
                if i < front.len() {
                    assert(text[i] == front[i]);
                }
            }
        }
        is_ascii_chars_encode_utf8(text);
        is_ascii_chars_encode_utf8(front);
        let bytes = encode_utf8(text);
        let front_bytes = encode_utf8(front);
        assert(bytes.drop_last() =~= front_bytes) by {
            assert forall|i: int| 0 <= i < front_bytes.len() implies bytes.drop_last()[i]
                == front_bytes[i] by {
                assert(text[i] == front[i]);
            }
        }
        assert(bytes.last() == text[text.len() - 1] as u8);
        assert forall|i: int| 0 <= i < bytes.len() implies crate::amount::is_digit(
            #[trigger] bytes[i],
        ) by {
            if i < front_bytes.len() {
                assert(bytes[i] == bytes.drop_last()[i]);
            }
        }
    }
}

/// What is written is read back: a 64-bit number written in decimal reads
/// as that number.
pub proof fn lemma_written_is_read(x: u64)
    ensures
        parse_base_units_spec(encode_utf8(decimal_text(x as nat))) == Some(x),
{
    lemma_decimal_text_digits(x as nat);
    let bytes = encode_utf8(decimal_text(x as nat));
    assert(bytes[0] != 43);
}

} // verus!
