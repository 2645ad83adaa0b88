//! The text forms of inspector values: bounded numbers and colors.
use vstd::prelude::*;

use crate::text;

verus! {

/// The text form of a color: six hexadecimal digits, or the word for none.
pub open spec fn color_text(color: Option<u32>) -> Seq<char> {
    match color {
        None => "transparent"@,
        Some(color) => "#"@ + text::zero_padded(text::hex_text(color as nat), 6),
    }
}

/// The text form of a color.
pub fn format_optional_color(color: Option<u32>) -> (out: String)
    ensures
        out@ == color_text(color),
{
    match color {
        None => "transparent".to_owned(),
        Some(color) => text::join2(
            "#",
            text::pad_zeros(text::hexadecimal(color).as_str(), 6).as_str(),
        ),
    }
}

/// What a color field reads: no color for the words "transparent" and "none", the number of
/// `#RRGGBB`, or the reason why the text is no color.
pub open spec fn color_value(value: Seq<char>) -> Result<Option<nat>, Seq<char>> {
    let value = text::trimmed(value);
    if text::same_ignoring_case(value, "transparent"@) || text::same_ignoring_case(
        value,
        "none"@,
    ) {
        Ok(None)
    } else if !(value.len() > 0 && value[0] == '#') {
        Err("Color must use #RRGGBB or transparent"@)
    } else if value.len() != 7 || !text::all_hex(value.skip(1)) {
        Err("Color must use exactly six hexadecimal digits"@)
    } else {
        Ok(Some(text::hex_value(value.skip(1))))
    }
}

/// Reads a color field.
pub fn parse_optional_color(value: &str) -> (result: Result<Option<u32>, String>)
    ensures
        match color_value(value@) {
            Ok(Some(n)) => result == Ok::<Option<u32>, String>(Some(n as u32)) && n < 0x100_0000,
            Ok(None) => result == Ok::<Option<u32>, String>(None),
            Err(reason) => result is Err && result->Err_0@ == reason,
        },
{
    let value = text::trim(value);
    if text::eq_ignoring_case(value, "transparent") || text::eq_ignoring_case(value, "none") {
        return Ok(None);
    }
    let cs = text::chars_of(value);
    if cs.len() == 0 || cs[0] != '#' {
        return Err("Color must use #RRGGBB or transparent".to_owned());
    }
    if cs.len() != 7 {
        return Err("Color must use exactly six hexadecimal digits".to_owned());
    }
    proof {
        assert(cs@.subrange(1, 7) =~= value@.skip(1));
    }
    match text::parse_hex6(&cs, 1) {
        Some(color) => Ok(Some(color)),
        None => Err("Color must use exactly six hexadecimal digits".to_owned()),
    }
}

/// A text without white space at its edges is trimmed already.
proof fn lemma_trimmed_same(s: Seq<char>)
    requires
        s.len() > 0,
        !text::is_white_space(s[0]),
        !text::is_white_space(s.last()),
    ensures
        text::trimmed(s) == s,
{
}

/// Reading back the text form of a color gives the color.
pub proof fn law_color_round_trip(color: Option<u32>)
    requires
        color is Some ==> color->0 < 0x100_0000,
    ensures
        match color {
            Some(n) => color_value(color_text(color)) == Ok::<Option<nat>, Seq<char>>(
                Some(n as nat),
            ),
            None => color_value(color_text(color)) == Ok::<Option<nat>, Seq<char>>(None),
        },
{
    reveal_strlit("transparent");
    reveal_strlit("none");
    reveal_strlit("#");
    let s = color_text(color);
    match color {
        None => {
            lemma_trimmed_same(s);
        },
        Some(n) => {
            let digits = text::zero_padded(text::hex_text(n as nat), 6);
            text::law_hex_round_trip(n as nat);
            assert(text::hex_digit_value(digits[5]) is Some);
            assert(s.last() == digits[5]);
            lemma_trimmed_same(s);
            assert(s.skip(1) =~= digits);
        },
    }
}

/// The message of a number that is missing, malformed or out of bounds.
pub open spec fn bounds_message(field: Seq<char>, minimum: int, maximum: int) -> Seq<char> {
    field + " must be between "@ + text::signed_text(minimum) + " and "@ + text::signed_text(
        maximum,
    )
}

fn bounds_error(field: &str, minimum: i64, maximum: i64) -> (out: String)
    requires
        minimum > i64::MIN,
        maximum > i64::MIN,
    ensures
        out@ == bounds_message(field@, minimum as int, maximum as int),
{
    text::join5(
        field,
        " must be between ",
        text::decimal_signed(minimum).as_str(),
        " and ",
        text::decimal_signed(maximum).as_str(),
    )
}

/// What a bounded unsigned field reads.
pub open spec fn bounded_u16(value: Seq<char>, minimum: u16, maximum: u16) -> Option<u16> {
    match text::unsigned_value(text::trimmed(value)) {
        Some(n) => if minimum <= n <= maximum {
            Some(n as u16)
        } else {
            None
        },
        None => None,
    }
}

/// What a bounded signed field reads.
pub open spec fn bounded_i16(value: Seq<char>, minimum: int, maximum: int) -> Option<i16> {
    match text::signed_value(text::trimmed(value)) {
        Some(n) => if minimum <= n <= maximum {
            Some(n as i16)
        } else {
            None
        },
        None => None,
    }
}

/// Reads a number from `minimum` through `maximum`.
pub fn parse_bounded_u16(value: &str, minimum: u16, maximum: u16, field: &str) -> (result: Result<
    u16,
    String,
>)
    ensures
        match bounded_u16(value@, minimum, maximum) {
            Some(n) => result == Ok::<u16, String>(n),
            None => result is Err && result->Err_0@ == bounds_message(
                field@,
                minimum as int,
                maximum as int,
            ),
        },
{
    match text::parse_u16(text::trim(value)) {
        Some(n) => {
            if minimum <= n && n <= maximum {
                return Ok(n);
            }
        },
        None => {},
    }
    Err(bounds_error(field, minimum as i64, maximum as i64))
}

/// Reads a signed number from `minimum` through `maximum`.
pub fn parse_bounded_i16(value: &str, minimum: i16, maximum: i16, field: &str) -> (result: Result<
    i16,
    String,
>)
    ensures
        match bounded_i16(value@, minimum as int, maximum as int) {
            Some(n) => result == Ok::<i16, String>(n),
            None => result is Err && result->Err_0@ == bounds_message(
                field@,
                minimum as int,
                maximum as int,
            ),
        },
{
    match text::parse_i16(text::trim(value)) {
        Some(n) => {
            if minimum <= n && n <= maximum {
                return Ok(n);
            }
        },
        None => {},
    }
    Err(bounds_error(field, minimum as i64, maximum as i64))
}

/// Whether a field of optional numbers reads no number.
pub open spec fn reads_automatic(value: Seq<char>) -> bool {
    text::trimmed(value).len() == 0 || text::same_ignoring_case(text::trimmed(value), "auto"@)
}

/// Whether the field is empty or says "auto".
fn automatic(value: &str) -> (result: bool)
    ensures
        result == reads_automatic(value@),
{
    let value = text::trim(value);
    value.unicode_len() == 0 || text::eq_ignoring_case(value, "auto")
}

/// Reads an optional number from `minimum` through `maximum`.
pub fn parse_optional_bounded_u16(
    value: &str,
    minimum: u16,
    maximum: u16,
    field: &str,
) -> (result: Result<Option<u16>, String>)
    ensures
        if reads_automatic(value@) {
            result == Ok::<Option<u16>, String>(None)
        } else {
            match bounded_u16(value@, minimum, maximum) {
                Some(n) => result == Ok::<Option<u16>, String>(Some(n)),
                None => result is Err && result->Err_0@ == bounds_message(
                    field@,
                    minimum as int,
                    maximum as int,
                ),
            }
        },
{
    if automatic(value) {
        return Ok(None);
    }
    match parse_bounded_u16(value, minimum, maximum, field) {
        Ok(n) => Ok(Some(n)),
        Err(reason) => Err(reason),
    }
}

/// Reads an optional signed number from `minimum` through `maximum`.
pub fn parse_optional_bounded_i16(
    value: &str,
    minimum: i16,
    maximum: i16,
    field: &str,
) -> (result: Result<Option<i16>, String>)
    ensures
        if reads_automatic(value@) {
            result == Ok::<Option<i16>, String>(None)
        } else {
            match bounded_i16(value@, minimum as int, maximum as int) {
                Some(n) => result == Ok::<Option<i16>, String>(Some(n)),
                None => result is Err && result->Err_0@ == bounds_message(
                    field@,
                    minimum as int,
                    maximum as int,
                ),
            }
        },
{
    if automatic(value) {
        return Ok(None);
    }
    match parse_bounded_i16(value, minimum, maximum, field) {
        Ok(n) => Ok(Some(n)),
        Err(reason) => Err(reason),
    }
}

/// The text form of an optional number: empty for none.
pub open spec fn optional_number_text(value: Option<int>) -> Seq<char> {
    match value {
        Some(n) => text::signed_text(n),
        None => ""@,
    }
}

/// An optional unsigned number as a mathematical one.
pub open spec fn as_number(value: Option<u16>) -> Option<int> {
    match value {
        Some(n) => Some(n as int),
        None => None,
    }
}

/// An optional signed number as a mathematical one.
pub open spec fn as_signed_number(value: Option<i16>) -> Option<int> {
    match value {
        Some(n) => Some(n as int),
        None => None,
    }
}

/// The text form of an optional number.
pub fn optional_u16_value(value: Option<u16>) -> (out: String)
    ensures
        out@ == optional_number_text(as_number(value)),
{
    match value {
        Some(n) => text::decimal(n as u64),
        None => "".to_owned(),
    }
}

/// The text form of an optional signed number.
pub fn optional_i16_value(value: Option<i16>) -> (out: String)
    ensures
        out@ == optional_number_text(as_signed_number(value)),
{
    match value {
        Some(n) => text::decimal_signed(n as i64),
        None => "".to_owned(),
    }
}

/// The decimal form of a number is its own trimmed form, and says neither "auto" nor a color.
pub proof fn lemma_number_text(n: int)
    ensures
        text::signed_text(n).len() > 0,
        text::trimmed(text::signed_text(n)) == text::signed_text(n),
        !text::same_ignoring_case(text::signed_text(n), "auto"@),
        color_value(text::signed_text(n)) is Err,
{
    reveal_strlit("transparent");
    reveal_strlit("none");
    reveal_strlit("auto");
    let s = text::signed_text(n);
    let d = text::decimal_text(if n < 0 {
        (-n) as nat
    } else {
        n as nat
    });
    text::lemma_decimal_digits(if n < 0 {
        (-n) as nat
    } else {
        n as nat
    });
    assert(text::is_digit(d[0]) && text::is_digit(d[d.len() - 1]));
    assert(s.last() == d[d.len() - 1]);
    assert(text::ascii_lower(s[0]) != text::ascii_lower('a'));
    assert(text::ascii_lower(s[0]) != text::ascii_lower('t'));
    assert(text::ascii_lower(s[0]) != text::ascii_lower('n'));
    lemma_trimmed_same(s);
}

/// Reading back the text form of an optional unsigned number within the bounds gives it.
pub proof fn law_optional_u16_round_trip(value: Option<u16>, minimum: u16, maximum: u16)
    requires
        value is Some ==> minimum <= value->0 <= maximum,
    ensures
        match value {
            None => reads_automatic(optional_number_text(as_number(value))),
            Some(n) => !reads_automatic(optional_number_text(as_number(value))) && bounded_u16(
                optional_number_text(as_number(value)),
                minimum,
                maximum,
            ) == Some(n),
        },
{
    reveal_strlit("");
    match value {
        None => {},
        Some(n) => {
            lemma_number_text(n as int);
            text::law_decimal_round_trip(n as nat);
        },
    }
}

/// Reading back the text form of an optional signed number within the bounds gives it.
pub proof fn law_optional_i16_round_trip(value: Option<i16>, minimum: i16, maximum: i16)
    requires
        value is Some ==> minimum <= value->0 <= maximum,
    ensures
        match value {
            None => reads_automatic(optional_number_text(as_signed_number(value))),
            Some(n) => !reads_automatic(optional_number_text(as_signed_number(value)))
                && bounded_i16(
                optional_number_text(as_signed_number(value)),
                minimum as int,
                maximum as int,
            )
                == Some(n),
        },
{
    reveal_strlit("");
    match value {
        None => {},
        Some(n) => {
            lemma_number_text(n as int);
            text::law_signed_round_trip(n as int);
        },
    }
}

/// A color field reads six hexadecimal digits of either case behind a hash sign, or a word for no
/// color, with white space around it or not; anything else is refused.
pub proof fn law_colors_are_read(value: Seq<char>)
    ensures
        ({
            let word = text::trimmed(value);
            let none = text::same_ignoring_case(word, "transparent"@) || text::same_ignoring_case(
                word,
                "none"@,
            );
            let marked = word.len() > 0 && word[0] == '#';
            let six = marked && word.len() == 7 && text::all_hex(word.skip(1));
            &&& none ==> color_value(value) == Ok::<Option<nat>, Seq<char>>(None)
            &&& six ==> color_value(value) == Ok::<Option<nat>, Seq<char>>(
                Some(text::hex_value(word.skip(1))),
            )
            &&& !none && !marked ==> color_value(value) == Err::<Option<nat>, Seq<char>>(
                "Color must use #RRGGBB or transparent"@,
            )
            &&& !none && marked && !six ==> color_value(value) == Err::<Option<nat>, Seq<char>>(
                "Color must use exactly six hexadecimal digits"@,
            )
        }),
{
    reveal_strlit("transparent");
    reveal_strlit("none");
    assert("transparent"@.len() == 11 && "none"@.len() == 4);
}

/// A bounded field reads a number within its bounds, both included, and nothing else.
pub proof fn law_bounds_are_kept(value: Seq<char>, minimum: u16, maximum: u16, low: i16, high: i16)
    ensures
        bounded_u16(value, minimum, maximum) matches Some(n) ==> minimum <= n <= maximum
            && text::unsigned_value(text::trimmed(value)) == Some(n as nat),
        text::unsigned_value(text::trimmed(value)) matches Some(n) ==> (bounded_u16(
            value,
            minimum,
            maximum,
        ) is Some <==> minimum <= n <= maximum),
        text::unsigned_value(text::trimmed(value)) is None ==> bounded_u16(value, minimum, maximum)
            is None,
        bounded_i16(value, low as int, high as int) matches Some(n) ==> low <= n <= high
            && text::signed_value(text::trimmed(value)) == Some(n as int),
        text::signed_value(text::trimmed(value)) matches Some(n) ==> (bounded_i16(
            value,
            low as int,
            high as int,
        ) is Some <==> low <= n <= high),
        text::signed_value(text::trimmed(value)) is None ==> bounded_i16(
            value,
            low as int,
            high as int,
        ) is None,
        reads_automatic(value) <==> text::trimmed(value).len() == 0 || text::same_ignoring_case(
            text::trimmed(value),
            "auto"@,
        ),
{
}

} // verus!
