//! What the editor shows is what it takes back: pasting the hex text of
//! bytes gives the bytes.

use crate::hexedit::{decoded, digit_value, hex_digits, is_hex, pasted, whole_pairs};
use crate::util::{spaced_hex, upper_digit};
use vstd::prelude::*;
use vstd::utf8::{encode_utf8, is_ascii_chars, is_ascii_chars_encode_utf8};

verus! {

/// The hex digits of the bytes as bytes of text, two for each byte.
pub open spec fn digit_bytes(data: Seq<u8>) -> Seq<u8> {
    Seq::new(
        2 * data.len(),
        |i: int|
            if i % 2 == 0 {
                upper_digit(data[i / 2] as int / 16) as u8
            } else {
                upper_digit(data[i / 2] as int % 16) as u8
            },
    )
}

/// The bytes of the hex text of the bytes, spaces and all.
pub open spec fn shown_bytes(data: Seq<u8>) -> Seq<u8> {
    Seq::new(spaced_hex(data).len(), |i: int| spaced_hex(data)[i] as u8)
}

/// An upper-case hex digit reads back as its value.
pub proof fn upper_digit_reads_back(nibble: int)
    requires
        0 <= nibble < 16,
    ensures
        digit_value(upper_digit(nibble) as u8) == Some(nibble),
{
}

/// The hex digits of one byte of text: the byte, where it is a hex digit.
pub proof fn hex_digits_of_one(byte: u8)
    ensures
        hex_digits(seq![byte]) == if digit_value(byte) is Some {
            seq![byte]
        } else {
            Seq::empty()
        },
{
    let one = seq![byte];
    assert(one.drop_last() =~= Seq::<u8>::empty());
    assert(hex_digits(one.drop_last()) =~= Seq::<u8>::empty());
    assert(one.last() == byte);
    if digit_value(byte) is Some {
        assert(hex_digits(one) =~= seq![byte]);
    }
}

/// The hex digits of two texts, one after the other, are the hex digits of
/// the first and then those of the second.
pub proof fn hex_digits_of_joined(first: Seq<u8>, second: Seq<u8>)
    ensures
        hex_digits(first + second) == hex_digits(first) + hex_digits(second),
    decreases second.len(),
{
    if second.len() == 0 {
        assert(first + second =~= first);
        assert(hex_digits(first) + hex_digits(second) =~= hex_digits(first));
    } else {
        let joined = first + second;
        assert(joined.drop_last() =~= first + second.drop_last());
        assert(joined.last() == second.last());
        hex_digits_of_joined(first, second.drop_last());
        if digit_value(second.last()) is Some {
            assert(hex_digits(joined) =~= hex_digits(first) + hex_digits(second));
        }
    }
}

/// The hex digits in the hex text of bytes are the digits of the bytes: the
/// spaces between them are passed over.
pub proof fn shown_digits_are_the_digits(data: Seq<u8>)
    ensures
        hex_digits(shown_bytes(data)) == digit_bytes(data),
    decreases data.len(),
{
    if data.len() == 0 {
        assert(shown_bytes(data) =~= Seq::<u8>::empty());
        assert(digit_bytes(data) =~= Seq::<u8>::empty());
    } else {
        let front = data.drop_last();
        let byte = data.last();
        let high = upper_digit(byte as int / 16) as u8;
        let low = upper_digit(byte as int % 16) as u8;
        upper_digit_reads_back(byte as int / 16);
        upper_digit_reads_back(byte as int % 16);
        shown_digits_are_the_digits(front);
        let pair = seq![high, low];
        assert(hex_digits(pair) =~= pair) by {
            hex_digits_of_one(high);
            hex_digits_of_one(low);
            assert(pair =~= seq![high] + seq![low]);
            hex_digits_of_joined(seq![high], seq![low]);
        }
        let space = seq![' ' as u8];
        hex_digits_of_one(' ' as u8);
        assert(digit_bytes(data) =~= digit_bytes(front) + pair) by {
            assert forall|i: int| 0 <= i < 2 * front.len() implies digit_bytes(data)[i]
                == digit_bytes(front)[i] by {
                assert(front[i / 2] == data[i / 2]);
            }
        }
        if front.len() == 0 {
            assert(shown_bytes(data) =~= pair);
        } else {
            assert(shown_bytes(data) =~= shown_bytes(front) + space + pair) by {
                assert forall|i: int| 0 <= i < shown_bytes(front).len() implies shown_bytes(
                    data,
                )[i] == shown_bytes(front)[i] by {
                    assert(front[i / 3] == data[i / 3]);
                }
            }
            hex_digits_of_joined(shown_bytes(front), space);
            hex_digits_of_joined(shown_bytes(front) + space, pair);
            assert(hex_digits(shown_bytes(front)) + hex_digits(space) =~= hex_digits(
                shown_bytes(front),
            ));
        }
    }
}

/// The digits of bytes stand for the bytes.
pub proof fn digits_decode_to_the_bytes(data: Seq<u8>)
    ensures
        is_hex(digit_bytes(data)),
        decoded(digit_bytes(data)) == Some(data),
{
    let digits = digit_bytes(data);
    assert forall|i: int| 0 <= i < digits.len() implies (#[trigger] digit_value(digits[i]))
        is Some by {
        upper_digit_reads_back(data[i / 2] as int / 16);
        upper_digit_reads_back(data[i / 2] as int % 16);
    }
    assert(decoded(digits)->0 =~= data) by {
        assert forall|i: int| 0 <= i < data.len() implies decoded(digits)->0[i] == data[i] by {
            upper_digit_reads_back(data[i] as int / 16);
            upper_digit_reads_back(data[i] as int % 16);
            assert((2 * i) / 2 == i && (2 * i + 1) / 2 == i);
        }
    }
}

/// Pasting the hex text that the editor shows for bytes inserts those
/// bytes.
pub proof fn shown_text_pastes_back(data: Seq<u8>)
    ensures
        is_ascii_chars(spaced_hex(data)),
        pasted(encode_utf8(spaced_hex(data))) == data,
{
    let text = spaced_hex(data);
    assert(is_ascii_chars(text));
    is_ascii_chars_encode_utf8(text);
    assert(encode_utf8(text) =~= shown_bytes(data));
    shown_digits_are_the_digits(data);
    digits_decode_to_the_bytes(data);
    assert(whole_pairs(digit_bytes(data)) == digit_bytes(data));
}

} // verus!
