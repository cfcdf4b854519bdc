//! The functions of the standard library that texts are handled with, and what
//! is relied on of each.
use vstd::prelude::*;

verus! {

/// `String::push` appends one character to the end of the string.
pub assume_specification[ String::push ](string: &mut String, c: char)
    ensures
        final(string)@ == old(string)@.push(c),
;

/// The characters with the Unicode property `White_Space`.
pub open spec fn is_white_space(c: char) -> bool {
    ||| '\u{0009}' <= c <= '\u{000D}'
    ||| c == '\u{0020}'
    ||| c == '\u{0085}'
    ||| c == '\u{00A0}'
    ||| c == '\u{1680}'
    ||| '\u{2000}' <= c <= '\u{200A}'
    ||| c == '\u{2028}'
    ||| c == '\u{2029}'
    ||| c == '\u{202F}'
    ||| c == '\u{205F}'
    ||| c == '\u{3000}'
}

/// `char::is_whitespace` tells whether a character has the Unicode property
/// `White_Space`; the characters that have it are those of `is_white_space`.
pub assume_specification[ char::is_whitespace ](c: char) -> (white: bool)
    ensures
        white == is_white_space(c),
;

/// What a text looks like in messages that show it quoted and escaped, as
/// `{:?}` formats it.
pub uninterp spec fn debug_form(text: Seq<char>) -> Seq<char>;

/// Formats a text with `{:?}`, which calls `<str as Debug>::fmt`. The result
/// depends on the text alone; how each character is escaped is left unsaid.
#[verifier::external_body]
pub(crate) fn debug_text(text: &str) -> (shown: String)
    ensures
        shown@ == debug_form(text@),
{
    format!("{:?}", text)
}

/// The text that bytes hold, with a replacement character for what is not
/// UTF-8 among them.
pub uninterp spec fn utf8_lossy(bytes: Seq<u8>) -> Seq<char>;

/// Decodes bytes with `String::from_utf8_lossy`. The result depends on the
/// bytes alone, and bytes that are valid UTF-8 give the text they encode; where
/// the replacement characters stand for other bytes is left unsaid.
#[verifier::external_body]
pub(crate) fn lossy_text(bytes: &[u8]) -> (text: String)
    ensures
        text@ == utf8_lossy(bytes@),
        vstd::utf8::valid_utf8(bytes@) ==> text@ == vstd::utf8::decode_utf8(bytes@),
{
    String::from_utf8_lossy(bytes).into_owned()
}

/// Whether a character is one of the ten decimal digits.
pub open spec fn is_digit(c: char) -> bool {
    '0' <= c <= '9'
}

/// Whether a text is made of decimal digits only.
pub open spec fn all_digits(text: Seq<char>) -> bool {
    forall|i: int| 0 <= i < text.len() ==> is_digit(#[trigger] text[i])
}

/// The number that a run of decimal digits stands for.
pub open spec fn decimal_value(digits: Seq<char>) -> int
    decreases digits.len(),
{
    if digits.len() == 0 {
        0
    } else {
        10 * decimal_value(digits.drop_last()) + (digits.last() as int - '0' as int)
    }
}

/// The number that a text stands for: one or more decimal digits, perhaps
/// after a plus sign, of a value that 32 bits can hold.
pub open spec fn u32_of(text: Seq<char>) -> Option<u32> {
    let digits = if text.len() > 0 && text[0] == '+' {
        text.skip(1)
    } else {
        text
    };
    if digits.len() > 0 && all_digits(digits) && decimal_value(digits) <= u32::MAX {
        Some(decimal_value(digits) as u32)
    } else {
        None
    }
}

/// What is said of a text that is no number of 32 bits.
pub uninterp spec fn u32_error(text: Seq<char>) -> Seq<char>;

/// Reads a number with `str::parse::<u32>`. It succeeds on one or more decimal
/// digits, with or without a plus sign before them, whose value fits, and gives
/// that value. On any other text it fails, and what the error displays depends
/// on the text alone; its wording is left unsaid.
#[verifier::external_body]
pub(crate) fn parse_u32(text: &str) -> (parsed: Result<u32, String>)
    ensures
        match parsed {
            Ok(number) => u32_of(text@) == Some(number),
            Err(message) => u32_of(text@) is None && message@ == u32_error(text@),
        },
{
    match text.parse::<u32>() {
        Ok(number) => Ok(number),
        Err(error) => Err(error.to_string()),
    }
}

/// The code points of white space.
pub proof fn law_white_space_by_code_point(c: char)
    ensures
        is_white_space(c) <==> {
            let code = c as int;
            ||| 9 <= code <= 13
            ||| code == 32
            ||| code == 133
            ||| code == 160
            ||| code == 5760
            ||| 8192 <= code <= 8202
            ||| 8232 <= code <= 8233
            ||| code == 8239
            ||| code == 8287
            ||| code == 12288
        },
{
}

/// A digit behind others multiplies their value by ten and adds its own; no
/// digits have the value zero.
pub proof fn law_value_of_digits(digits: Seq<char>, last: char)
    ensures
        decimal_value(Seq::empty()) == 0,
        decimal_value(digits.push(last)) == 10 * decimal_value(digits) + (last as int - 48),
{
    assert(digits.push(last).drop_last() =~= digits);
}

/// One or more digits whose value fits stand for that value, also behind a plus
/// sign.
pub proof fn law_digits_stand_for_their_value(digits: Seq<char>)
    requires
        digits.len() > 0,
        forall|i: int| 0 <= i < digits.len() ==> '0' <= #[trigger] digits[i] <= '9',
        decimal_value(digits) <= u32::MAX,
    ensures
        u32_of(digits) matches Some(number) && number == decimal_value(digits),
        u32_of(seq!['+'] + digits) matches Some(number) && number == decimal_value(digits),
{
    lemma_value_is_not_negative(digits);
    assert('0' <= digits[0]);
    assert((seq!['+'] + digits).skip(1) =~= digits);
}

/// The value of digits is not negative.
proof fn lemma_value_is_not_negative(digits: Seq<char>)
    requires
        all_digits(digits),
    ensures
        decimal_value(digits) >= 0,
    decreases digits.len(),
{
    if digits.len() > 0 {
        assert forall|i: int| 0 <= i < digits.drop_last().len() implies is_digit(
            #[trigger] digits.drop_last()[i],
        ) by {
            assert(is_digit(digits[i]));
        }
        lemma_value_is_not_negative(digits.drop_last());
        assert(is_digit(digits[digits.len() - 1]));
    }
}

/// A text that stands for a number is one or more digits of that value, perhaps
/// behind a plus sign.
pub proof fn law_a_number_is_digits(text: Seq<char>)
    ensures
        u32_of(text) matches Some(number) ==> exists|digits: Seq<char>|
            {
                &&& digits.len() > 0
                &&& forall|i: int| 0 <= i < digits.len() ==> '0' <= #[trigger] digits[i] <= '9'
                &&& #[trigger] decimal_value(digits) == number
                &&& text == digits || text == seq!['+'] + digits
            },
{
    if u32_of(text) is Some {
        let digits = if text[0] == '+' {
            text.skip(1)
        } else {
            text
        };
        lemma_value_is_not_negative(digits);
        assert forall|i: int| 0 <= i < digits.len() implies '0' <= #[trigger] digits[i] <= '9' by {
            assert(is_digit(digits[i]));
        }
        if text[0] == '+' {
            assert(text =~= seq!['+'] + digits);
        }
        assert(decimal_value(digits) == u32_of(text)->Some_0);
    }
}

} // verus!
