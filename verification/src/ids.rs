use vstd::prelude::*;

verus! {

/// What `uuid::Uuid::parse_str` makes of a text: the 128-bit value of the
/// identifier it spells, or nothing where it spells none.
pub uninterp spec fn uuid_parse(text: Seq<char>) -> Option<u128>;

/// The `k`-th group of four bits of `id`, counted from the least significant.
pub open spec fn nibble(id: u128, k: int) -> int {
    (id as int / vstd::arithmetic::power::pow(16, k as nat)) % 16
}

/// The lower-case hexadecimal digit for a value below sixteen.
pub open spec fn hex_digit(value: int) -> char {
    if value == 0 {
        '0'
    } else if value == 1 {
        '1'
    } else if value == 2 {
        '2'
    } else if value == 3 {
        '3'
    } else if value == 4 {
        '4'
    } else if value == 5 {
        '5'
    } else if value == 6 {
        '6'
    } else if value == 7 {
        '7'
    } else if value == 8 {
        '8'
    } else if value == 9 {
        '9'
    } else if value == 10 {
        'a'
    } else if value == 11 {
        'b'
    } else if value == 12 {
        'c'
    } else if value == 13 {
        'd'
    } else if value == 14 {
        'e'
    } else {
        'f'
    }
}

/// The simple form of an identifier: its thirty-two hexadecimal digits, the
/// most significant first, in lower case and without separators.
pub open spec fn simple_form(id: u128) -> Seq<char> {
    Seq::new(32, |i: int| hex_digit(nibble(id, 31 - i)))
}

/// The hyphenated form of an identifier: the digits of the simple form in
/// groups of 8, 4, 4, 4 and 12, joined by hyphens.
pub open spec fn hyphenated_form(id: u128) -> Seq<char> {
    let digits = simple_form(id);
    digits.subrange(0, 8) + seq!['-'] + digits.subrange(8, 12) + seq!['-'] + digits.subrange(
        12,
        16,
    ) + seq!['-'] + digits.subrange(16, 20) + seq!['-'] + digits.subrange(20, 32)
}

/// Calls `uuid::Uuid::new_v4` and hands out the new identifier as its 128-bit
/// value. The identifier is random, so nothing is claimed of it. The call
/// panics where the operating system's random source fails; nothing that is
/// handed to it decides that.
#[verifier::external_body]
pub(crate) fn random_id() -> (id: u128) {
    uuid::Uuid::new_v4().as_u128()
}

/// Calls `uuid::Uuid::parse_str`. The claim is only that the outcome is the
/// one named `uuid_parse` for this text, an identifier being handed out as its
/// 128-bit value.
#[verifier::external_body]
pub(crate) fn parse_uuid(text: &str) -> (id: Option<u128>)
    ensures
        id == uuid_parse(text@),
{
    match uuid::Uuid::parse_str(text) {
        Ok(parsed) => Some(parsed.as_u128()),
        Err(_) => None,
    }
}

/// Formats through `uuid::fmt::Simple`. The claim is that the text is the
/// simple form of the identifier, and that `uuid::Uuid::parse_str` reads that
/// text back as the same identifier.
#[verifier::external_body]
pub(crate) fn format_simple(id: u128) -> (text: String)
    ensures
        text@ == simple_form(id),
        uuid_parse(text@) == Some(id),
{
    uuid::Uuid::from_u128(id).simple().to_string()
}

/// Formats through `uuid::fmt::Hyphenated`, which is how an identifier is
/// displayed. The claim is that the text is the hyphenated form of the
/// identifier, and that `uuid::Uuid::parse_str` reads that text back as the
/// same identifier.
#[verifier::external_body]
pub(crate) fn format_hyphenated(id: u128) -> (text: String)
    ensures
        text@ == hyphenated_form(id),
        uuid_parse(text@) == Some(id),
{
    uuid::Uuid::from_u128(id).hyphenated().to_string()
}

/// Reads an identifier from any of the textual forms in which one is written.
pub fn parse_id(text: &str) -> (id: Option<u128>)
    ensures
        id == uuid_parse(text@),
{
    parse_uuid(text)
}

/// The text that a session carries for a user: the simple form of the user's
/// identifier, which `parse_id` reads back.
pub fn session_token(user_id: u128) -> (token: String)
    ensures
        token@ == simple_form(user_id),
        uuid_parse(token@) == Some(user_id),
{
    format_simple(user_id)
}

} // verus!
