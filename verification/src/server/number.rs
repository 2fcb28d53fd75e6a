use vstd::prelude::*;

verus! {

/// Why a text is not an integer of the wanted type (the kinds that std's
/// integer parsing reports).
#[derive(Clone, Copy, Debug, PartialEq, Eq, Structural)]
pub enum IntegerErrorKind {
    Empty,
    InvalidDigit,
    PosOverflow,
    NegOverflow,
    Zero,
    Other,
}

pub open spec fn is_decimal_digit(c: char) -> bool {
    '0' <= c && c <= '9'
}

pub open spec fn all_decimal_digits(s: Seq<char>) -> bool {
    forall|i: int| 0 <= i < s.len() ==> is_decimal_digit(#[trigger] s[i])
}

/// The number that a string of decimal digits denotes.
pub open spec fn digits_value(s: Seq<char>) -> int
    decreases s.len(),
{
    if s.len() == 0 {
        0
    } else {
        digits_value(s.drop_last()) * 10 + (s.last() as int - '0' as int)
    }
}

/// The integer that `s` writes as an optional `+` or `-` followed by one or
/// more decimal digits, and nothing else; `None` for any other text.
pub open spec fn decimal_value(s: Seq<char>) -> Option<int> {
    if s.len() > 0 && (s[0] == '+' || s[0] == '-') {
        let digits = s.drop_first();
        if digits.len() > 0 && all_decimal_digits(digits) {
            if s[0] == '-' {
                Some(-digits_value(digits))
            } else {
                Some(digits_value(digits))
            }
        } else {
            None
        }
    } else if s.len() > 0 && all_decimal_digits(s) {
        Some(digits_value(s))
    } else {
        None
    }
}

/// Which error std's `i64` parsing reports for a text that is no `i64`, where
/// its documentation leaves the kind open.
pub uninterp spec fn i64_parse_error(s: Seq<char>) -> IntegerErrorKind;

/// Which error std's `i32` parsing reports for a text that is no `i32`, where
/// its documentation leaves the kind open.
pub uninterp spec fn i32_parse_error(s: Seq<char>) -> IntegerErrorKind;

/// What parsing `s` as an `i64` gives.
pub open spec fn parse_i64_spec(s: Seq<char>) -> Result<i64, IntegerErrorKind> {
    match decimal_value(s) {
        Some(v) => if i64::MIN <= v <= i64::MAX {
            Ok(v as i64)
        } else {
            Err(i64_parse_error(s))
        },
        None => Err(i64_parse_error(s)),
    }
}

/// What parsing `s` as an `i32` gives.
pub open spec fn parse_i32_spec(s: Seq<char>) -> Result<i32, IntegerErrorKind> {
    match decimal_value(s) {
        Some(v) => if i32::MIN <= v <= i32::MAX {
            Ok(v as i32)
        } else {
            Err(i32_parse_error(s))
        },
        None => Err(i32_parse_error(s)),
    }
}

/// Parses `text` with std's `str::parse::<i64>`. As its documentation says:
/// the text is an optional sign followed by decimal digits and nothing else,
/// and the value must fit; an empty text is `Empty`, a well-formed text out
/// of range is `PosOverflow` or `NegOverflow`. An ill-formed text of at most
/// 18 characters is `InvalidDigit`: no 18 digits overflow an `i64`, and
/// `Zero` is only for non-zero types. Which kind longer ill-formed texts give
/// is left to the name `i64_parse_error`.
#[verifier::external_body]
pub(crate) fn parse_i64(text: &str) -> (res: Result<i64, IntegerErrorKind>)
    ensures
        decimal_value(text@) matches Some(v) ==> (i64::MIN <= v <= i64::MAX ==> res is Ok && res->Ok_0 == v),
        decimal_value(text@) matches Some(v) ==> (!(i64::MIN <= v <= i64::MAX) ==> res is Err && res->Err_0 == i64_parse_error(text@)),
        decimal_value(text@) is None ==> res is Err && res->Err_0 == i64_parse_error(text@),
        text@.len() == 0 ==> res matches Err(IntegerErrorKind::Empty),
        text@.len() > 0 ==> !(res matches Err(IntegerErrorKind::Empty)),
        decimal_value(text@) matches Some(v) && v > i64::MAX ==> res matches Err(IntegerErrorKind::PosOverflow),
        decimal_value(text@) matches Some(v) && v < i64::MIN ==> res matches Err(IntegerErrorKind::NegOverflow),
        0 < text@.len() <= 18 && decimal_value(text@) is None ==> res matches Err(IntegerErrorKind::InvalidDigit),
{
    match text.parse::<i64>() {
        Ok(v) => Ok(v),
        Err(e) => Err(match e.kind() {
            std::num::IntErrorKind::Empty => IntegerErrorKind::Empty,
            std::num::IntErrorKind::InvalidDigit => IntegerErrorKind::InvalidDigit,
            std::num::IntErrorKind::PosOverflow => IntegerErrorKind::PosOverflow,
            std::num::IntErrorKind::NegOverflow => IntegerErrorKind::NegOverflow,
            std::num::IntErrorKind::Zero => IntegerErrorKind::Zero,
            _ => IntegerErrorKind::Other,
        }),
    }
}

/// Parses `text` with std's `str::parse::<i32>`, with the same documented
/// behaviour as `parse_i64` over the range of `i32` (an ill-formed text of
/// at most 9 characters is `InvalidDigit`).
#[verifier::external_body]
pub(crate) fn parse_i32(text: &str) -> (res: Result<i32, IntegerErrorKind>)
    ensures
        decimal_value(text@) matches Some(v) ==> (i32::MIN <= v <= i32::MAX ==> res is Ok && res->Ok_0 == v),
        decimal_value(text@) matches Some(v) ==> (!(i32::MIN <= v <= i32::MAX) ==> res is Err && res->Err_0 == i32_parse_error(text@)),
        decimal_value(text@) is None ==> res is Err && res->Err_0 == i32_parse_error(text@),
        text@.len() == 0 ==> res matches Err(IntegerErrorKind::Empty),
        text@.len() > 0 ==> !(res matches Err(IntegerErrorKind::Empty)),
        decimal_value(text@) matches Some(v) && v > i32::MAX ==> res matches Err(IntegerErrorKind::PosOverflow),
        decimal_value(text@) matches Some(v) && v < i32::MIN ==> res matches Err(IntegerErrorKind::NegOverflow),
        0 < text@.len() <= 9 && decimal_value(text@) is None ==> res matches Err(IntegerErrorKind::InvalidDigit),
{
    match text.parse::<i32>() {
        Ok(v) => Ok(v),
        Err(e) => Err(match e.kind() {
            std::num::IntErrorKind::Empty => IntegerErrorKind::Empty,
            std::num::IntErrorKind::InvalidDigit => IntegerErrorKind::InvalidDigit,
            std::num::IntErrorKind::PosOverflow => IntegerErrorKind::PosOverflow,
            std::num::IntErrorKind::NegOverflow => IntegerErrorKind::NegOverflow,
            std::num::IntErrorKind::Zero => IntegerErrorKind::Zero,
            _ => IntegerErrorKind::Other,
        }),
    }
}

/// The `u16` that `s` writes as an optional `+` followed by one or more
/// decimal digits and nothing else; `None` for any other text or a value
/// out of range.
pub open spec fn u16_value(s: Seq<char>) -> Option<int> {
    if s.len() > 0 && s[0] == '-' {
        None
    } else {
        match decimal_value(s) {
            Some(v) => if 0 <= v <= u16::MAX {
                Some(v)
            } else {
                None
            },
            None => None,
        }
    }
}

/// Parses `text` with std's `str::parse::<u16>`. As its documentation says,
/// the text is an optional `+` followed by decimal digits and nothing else,
/// and the value must fit.
#[verifier::external_body]
pub(crate) fn parse_u16(text: &str) -> (res: Option<u16>)
    ensures
        res is Some <==> u16_value(text@) is Some,
        u16_value(text@) matches Some(v) ==> res is Some && res->0 == v,
{
    text.parse::<u16>().ok()
}

} // verus!
