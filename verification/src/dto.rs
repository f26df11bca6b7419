//! Request and response bodies of the authentication endpoints.

use crate::text::{i64_text, u64_text};
use vstd::prelude::*;

verus! {

#[derive(Debug)]
pub struct RegisterRequest {
    pub phone: String,
    pub device_id: String,
    pub device_name: String,
    pub device_type: String,
}

#[derive(Debug)]
pub struct VerifyPhoneRequest {
    pub phone: String,
    pub code: String,
}

#[derive(Debug)]
pub struct LoginRequest {
    pub phone: String,
    pub device_id: String,
    pub device_name: String,
    pub device_type: String,
    pub push_token: Option<String>,
}

#[derive(Debug)]
pub struct LoginVerifyRequest {
    pub phone: String,
    pub code: String,
}

#[derive(Debug)]
pub struct RefreshRequest {
    pub refresh_token: String,
}

#[derive(Debug)]
pub struct LogoutRequest {
    pub session_id: Option<String>,
}

#[derive(Debug)]
pub struct AuthResponse {
    pub access_token: String,
    pub refresh_token: String,
    pub expires_in: u64,
    pub user: UserResponse,
}

#[derive(Debug)]
pub struct UserResponse {
    pub id: String,
    pub phone: String,
    pub username: Option<String>,
}

#[derive(Debug)]
pub struct MessageResponse {
    pub message: String,
}

#[derive(Debug)]
pub struct SessionResponse {
    pub id: String,
    pub device_name: String,
    pub device_type: String,
    pub ip_address: Option<String>,
    pub last_active_at: Option<String>,
    pub is_current: bool,
}

#[derive(Debug)]
pub struct SessionsListResponse {
    pub sessions: Vec<SessionResponse>,
}

#[derive(Debug)]
pub struct TwoFactorSetupRequest {
    pub code: String,
}

#[derive(Debug)]
pub struct TwoFactorChallengeRequest {
    pub temp_token: String,
    pub code: String,
}

#[derive(Debug)]
pub struct RecoverRequest {
    pub phone: String,
}

#[derive(Debug)]
pub struct RecoverVerifyRequest {
    pub phone: String,
    pub code: String,
}

/// A value that a client sent where a phone number or a code is expected.
pub enum StringOrNumber {
    Text(String),
    /// A whole number below zero, or one that the format marks as signed.
    Signed(i64),
    Unsigned(u64),
    /// A number with a fraction or an exponent, already written out.
    Fraction(String),
    /// Anything else: a boolean, null, a list, an object.
    Other,
}

/// Says that a value is neither a string nor a number.
#[derive(Clone, Copy, Debug, PartialEq, Eq, Structural)]
pub struct NotStringOrNumber;

/// The text that stands for a value, if it is a string or a number.
pub open spec fn string_or_number(value: StringOrNumber) -> Option<Seq<char>> {
    match value {
        StringOrNumber::Text(s) => Some(s@),
        StringOrNumber::Signed(n) => Some(crate::text::decimal_int(n as int)),
        StringOrNumber::Unsigned(n) => Some(crate::text::decimal(n as nat)),
        StringOrNumber::Fraction(s) => Some(s@),
        StringOrNumber::Other => None,
    }
}

/// Takes a string as it is and writes a number out, so that clients may send either.
pub fn deserialize_string_or_number(value: StringOrNumber) -> (r: Result<String, NotStringOrNumber>)
    ensures
        match string_or_number(value) {
            Some(text) => r is Ok && r->Ok_0@ == text,
            None => r == Err::<String, NotStringOrNumber>(NotStringOrNumber),
        },
{
    match value {
        StringOrNumber::Text(s) => Ok(s),
        StringOrNumber::Signed(n) => Ok(i64_text(n)),
        StringOrNumber::Unsigned(n) => Ok(u64_text(n)),
        StringOrNumber::Fraction(s) => Ok(s),
        StringOrNumber::Other => Err(NotStringOrNumber),
    }
}

/// A number may be sent as a number or as its digits in a string: both are read alike.
pub proof fn number_reads_like_its_digits(number: u64, digits: String)
    requires
        digits@ == crate::text::decimal(number as nat),
    ensures
        string_or_number(StringOrNumber::Unsigned(number)) == string_or_number(
            StringOrNumber::Text(digits),
        ),
{
}

/// A signed number, too, is read like its digits in a string, with the sign before them; and one
/// that is not negative is read alike whether the format marks it as signed or not.
pub proof fn signed_number_reads_like_its_digits(number: i64, digits: String)
    requires
        digits@ == crate::text::decimal_int(number as int),
    ensures
        string_or_number(StringOrNumber::Signed(number)) == string_or_number(
            StringOrNumber::Text(digits),
        ),
        number >= 0 ==> string_or_number(StringOrNumber::Signed(number)) == string_or_number(
            StringOrNumber::Unsigned(number as u64),
        ),
{
}

/// What a number is read as has no leading zero: one that was typed as the start of a code is lost
/// where the code is sent as a number.
pub proof fn numbers_have_no_leading_zero(unsigned: u64, signed: i64)
    ensures
        unsigned > 0 ==> string_or_number(StringOrNumber::Unsigned(unsigned))->0[0] != '0',
        signed > 0 ==> string_or_number(StringOrNumber::Signed(signed))->0[0] != '0',
        signed < 0 ==> string_or_number(StringOrNumber::Signed(signed))->0[0] == '-'
            && string_or_number(StringOrNumber::Signed(signed))->0[1] != '0',
        string_or_number(StringOrNumber::Unsigned(0)) == Some(seq!['0']),
        string_or_number(StringOrNumber::Signed(0)) == Some(seq!['0']),
{
    crate::text::decimal_has_no_leading_zero(unsigned as nat);
    let magnitude = (if signed < 0 { -signed } else { signed as int }) as nat;
    crate::text::decimal_has_no_leading_zero(magnitude);
    crate::text::decimal_reads_back(magnitude);
    crate::text::decimal_has_no_leading_zero(0);
}

/// A string is taken as it is, character by character, and so is a number that is already written
/// out; anything that is neither has no text.
pub proof fn strings_are_taken_as_they_are(s: String, value: StringOrNumber)
    ensures
        string_or_number(StringOrNumber::Text(s)) == Some(s@),
        string_or_number(StringOrNumber::Fraction(s)) == Some(s@),
        string_or_number(value) is None <==> value is Other,
{
}

/// A number is written in digits that stand for it, with a minus exactly if it is below zero.
pub proof fn numbers_are_written_in_their_digits(unsigned: u64, signed: i64)
    ensures
        ({
            let text = string_or_number(StringOrNumber::Unsigned(unsigned))->0;
            crate::text::all_digits(text) && crate::text::digits_value(text) == unsigned
        }),
        ({
            let text = string_or_number(StringOrNumber::Signed(signed))->0;
            let digits = if signed < 0 {
                text.skip(1)
            } else {
                text
            };
            &&& signed < 0 <==> text[0] == '-'
            &&& crate::text::all_digits(digits)
            &&& crate::text::digits_value(digits) == if signed < 0 {
                -signed
            } else {
                signed as int
            }
        }),
{
    crate::text::decimal_reads_back(unsigned as nat);
    crate::text::decimal_int_reads_back(signed as int);
    if signed >= 0 {
        assert(crate::text::is_digit(crate::text::decimal_int(signed as int)[0]));
    }
}

} // verus!
