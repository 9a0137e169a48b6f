//! Bytes as hex text.

use vstd::prelude::*;
use vstd::string::StrSliceExecFns;
use vstd::string::StringExecFns;

verus! {

/// The upper-case hex digit of a value below sixteen.
pub open spec fn upper_digit(nibble: int) -> char {
    if nibble == 0 {
        '0'
    } else if nibble == 1 {
        '1'
    } else if nibble == 2 {
        '2'
    } else if nibble == 3 {
        '3'
    } else if nibble == 4 {
        '4'
    } else if nibble == 5 {
        '5'
    } else if nibble == 6 {
        '6'
    } else if nibble == 7 {
        '7'
    } else if nibble == 8 {
        '8'
    } else if nibble == 9 {
        '9'
    } else if nibble == 10 {
        'A'
    } else if nibble == 11 {
        'B'
    } else if nibble == 12 {
        'C'
    } else if nibble == 13 {
        'D'
    } else if nibble == 14 {
        'E'
    } else {
        'F'
    }
}

/// The two hex digits of a byte, the high one first.
pub open spec fn digit_pair(byte: u8) -> Seq<char> {
    seq![upper_digit(byte as int / 16), upper_digit(byte as int % 16)]
}

/// The bytes as upper-case hex digits, two for each byte and nothing
/// between them.
pub open spec fn upper_hex(data: Seq<u8>) -> Seq<char> {
    Seq::new(
        2 * data.len(),
        |i: int|
            if i % 2 == 0 {
                upper_digit(data[i / 2] as int / 16)
            } else {
                upper_digit(data[i / 2] as int % 16)
            },
    )
}

/// The bytes as upper-case hex digits, two for each byte, with one space
/// between one byte and the next: `DE AD BE EF`.
pub open spec fn spaced_hex(data: Seq<u8>) -> Seq<char> {
    Seq::new(
        if data.len() == 0 {
            0
        } else {
            (3 * data.len() - 1) as nat
        },
        |i: int|
            if i % 3 == 0 {
                upper_digit(data[i / 3] as int / 16)
            } else if i % 3 == 1 {
                upper_digit(data[i / 3] as int % 16)
            } else {
                ' '
            },
    )
}

/// What `str::trim` makes of a text: the text without the white space at
/// its two ends.
pub uninterp spec fn trimmed(text: Seq<char>) -> Seq<char>;

/// `str::trim`: the part of the text between the white space at its two
/// ends.
#[verifier::external_body]
pub(crate) fn trim<'a>(text: &'a str) -> (inner: &'a str)
    ensures
        inner@ == trimmed(text@),
{
    text.trim()
}

/// The decimal digit of a value below ten.
pub open spec fn decimal_digit(value: nat) -> char {
    if value == 0 {
        '0'
    } else if value == 1 {
        '1'
    } else if value == 2 {
        '2'
    } else if value == 3 {
        '3'
    } else if value == 4 {
        '4'
    } else if value == 5 {
        '5'
    } else if value == 6 {
        '6'
    } else if value == 7 {
        '7'
    } else if value == 8 {
        '8'
    } else {
        '9'
    }
}

/// A number in decimal digits, without leading zeros.
pub open spec fn decimal(value: nat) -> Seq<char>
    decreases value,
{
    if value < 10 {
        seq![decimal_digit(value)]
    } else {
        decimal(value / 10).push(decimal_digit(value % 10))
    }
}

/// The decimal digit of a value below ten, as text.
fn digit_text(digit: u32) -> (text: &'static str)
    requires
        digit < 10,
    ensures
        text@ == seq![decimal_digit(digit as nat)],
{
    proof {
        reveal_strlit("0");
        reveal_strlit("1");
        reveal_strlit("2");
        reveal_strlit("3");
        reveal_strlit("4");
        reveal_strlit("5");
        reveal_strlit("6");
        reveal_strlit("7");
        reveal_strlit("8");
        reveal_strlit("9");
    }
    let text = if digit == 0 {
        "0"
    } else if digit == 1 {
        "1"
    } else if digit == 2 {
        "2"
    } else if digit == 3 {
        "3"
    } else if digit == 4 {
        "4"
    } else if digit == 5 {
        "5"
    } else if digit == 6 {
        "6"
    } else if digit == 7 {
        "7"
    } else if digit == 8 {
        "8"
    } else {
        "9"
    };
    assert(text@ =~= seq![decimal_digit(digit as nat)]);
    text
}

/// The number in decimal digits, without leading zeros.
pub fn decimal_text(value: u32) -> (text: String)
    ensures
        text@ == decimal(value as nat),
    decreases value,
{
    if value < 10 {
        String::from_str(digit_text(value))
    } else {
        decimal_text(value / 10).concat(digit_text(value % 10))
    }
}

/// `hex::encode_upper`: each byte becomes its two upper-case hex digits.
#[verifier::external_body]
fn encode_upper(data: &[u8]) -> (text: String)
    ensures
        text@ == upper_hex(data@),
{
    hex::encode_upper(data)
}

/// Hex text holds ASCII characters only.
pub proof fn upper_hex_is_ascii(data: Seq<u8>)
    ensures
        vstd::utf8::is_ascii_chars(upper_hex(data)),
{
}

/// The bytes as hex text for display: two upper-case digits for each byte,
/// bytes parted by a space.
pub fn hex_encode_formatted(data: &[u8]) -> (text: String)
    ensures
        text@ == spaced_hex(data@),
        text.is_ascii(),
{
    let hex = encode_upper(data);
    let digits = hex.as_str();
    proof {
        upper_hex_is_ascii(data@);
        vstd::string::is_ascii_spec_bytes(digits);
        reveal_strlit(" ");
        reveal_strlit("");
    }
    let digit_count = digits.as_bytes().len();
    assert(digit_count == 2 * data@.len());
    let mut text = String::from_str("");
    let mut at: usize = 0;
    while at < data.len()
        invariant
            at <= data.len(),
            digits@ == upper_hex(data@),
            digits.is_ascii(),
            2 * data@.len() <= usize::MAX,
            " "@ == seq![' '],
            text@ == spaced_hex(data@.take(at as int)),
        decreases data.len() - at,
    {
        let ghost before = text@;
        if at != 0 {
            text.append(" ");
        }
        let pair = digits.substring_ascii(2 * at, 2 * at + 2);
        assert(pair@ =~= digit_pair(data@[at as int]));
        text.append(pair);
        assert(text@ =~= spaced_hex(data@.take(at as int + 1))) by {
            let longer = data@.take(at as int + 1);
            let shorter = data@.take(at as int);
            assert forall|i: int| 0 <= i < spaced_hex(longer).len() implies text@[i] == spaced_hex(
                longer,
            )[i] by {
                if i < before.len() {
                    assert(text@[i] == spaced_hex(shorter)[i]);
                    assert(shorter[i / 3] == longer[i / 3]);
                }
            }
        }
        at += 1;
    }
    assert(data@.take(at as int) =~= data@);
    proof {
        let shown = spaced_hex(data@);
        assert(vstd::utf8::is_ascii_chars(shown));
    }
    text
}

} // verus!
