use vstd::prelude::*;
use vstd::utf8::encode_utf8;
use crate::text::has_char;

verus! {

/// The smallest number of bytes a password may have.
pub const MIN_PASSWORD_LEN: usize = 8;

/// Why a password does not meet the strength policy.
#[derive(Debug, Clone, Copy, PartialEq, Eq, Structural)]
pub enum PasswordError {
    /// Fewer than `MIN_PASSWORD_LEN` bytes.
    TooShort,
    /// Long enough, but one of the four character classes is missing.
    Weak,
}

/// The first class: the lower-case letters.
pub open spec fn lowercase_letters() -> Seq<char> {
    "abcdefghijklmnopqrstuvwxyz"@
}

/// The second class: the upper-case letters.
pub open spec fn uppercase_letters() -> Seq<char> {
    "ABCDEFGHIJKLMNOPQRSTUVWXYZ"@
}

/// The third class: the digits.
pub open spec fn digits() -> Seq<char> {
    "0123456789"@
}

/// The fourth class: the symbols that count, and no others.
pub open spec fn symbols() -> Seq<char> {
    "!@#$%^&*()-_=+[]{}|;:,.<>/?"@
}

/// Whether `password` holds at least one character of `class`.
pub open spec fn has_any_of(password: Seq<char>, class: Seq<char>) -> bool {
    exists|i: int| 0 <= i < class.len() && password.contains(#[trigger] class[i])
}

/// Whether every one of the four character classes occurs in `password`.
pub open spec fn covers_all_classes(password: Seq<char>) -> bool {
    &&& has_any_of(password, lowercase_letters())
    &&& has_any_of(password, uppercase_letters())
    &&& has_any_of(password, digits())
    &&& has_any_of(password, symbols())
}

/// The strength policy: length is judged first, then the character classes.
pub open spec fn policy(password: Seq<char>) -> Result<(), PasswordError> {
    if encode_utf8(password).len() < MIN_PASSWORD_LEN {
        Err(PasswordError::TooShort)
    } else if !covers_all_classes(password) {
        Err(PasswordError::Weak)
    } else {
        Ok(())
    }
}

/// Whether `password` holds at least one character of `class`.
pub fn contains_any(password: &str, class: &str) -> (found: bool)
    ensures
        found == has_any_of(password@, class@),
{
    let mut found = false;
    for c in it: class.chars()
        invariant
            it.seq() == class@,
            found == (exists|i: int|
                0 <= i < it.index() && password@.contains(#[trigger] class@[i])),
    {
        if has_char(password, c) {
            found = true;
        }
    }
    found
}

/// Judges a password against the strength policy.
pub fn check_password(password: &str) -> (verdict: Result<(), PasswordError>)
    ensures
        verdict == policy(password@),
{
    if password.as_bytes().len() < MIN_PASSWORD_LEN {
        Err(PasswordError::TooShort)
    } else if !contains_any(password, "abcdefghijklmnopqrstuvwxyz") {
        Err(PasswordError::Weak)
    } else if !contains_any(password, "ABCDEFGHIJKLMNOPQRSTUVWXYZ") {
        Err(PasswordError::Weak)
    } else if !contains_any(password, "0123456789") {
        Err(PasswordError::Weak)
    } else if !contains_any(password, "!@#$%^&*()-_=+[]{}|;:,.<>/?") {
        Err(PasswordError::Weak)
    } else {
        Ok(())
    }
}

/// The code point of a character.
pub open spec fn code_point(c: char) -> int {
    c as u32 as int
}

/// The first three classes are what their names say: a password holds a
/// character of the class exactly if it holds a letter from `a` to `z`, a
/// letter from `A` to `Z`, or a digit from `0` to `9`.
pub proof fn law_classes_are_character_ranges(password: Seq<char>)
    ensures
        has_any_of(password, lowercase_letters()) <==> exists|i: int|
            0 <= i < password.len() && code_point('a') <= code_point(#[trigger] password[i])
                <= code_point('z'),
        has_any_of(password, uppercase_letters()) <==> exists|i: int|
            0 <= i < password.len() && code_point('A') <= code_point(#[trigger] password[i])
                <= code_point('Z'),
        has_any_of(password, digits()) <==> exists|i: int|
            0 <= i < password.len() && code_point('0') <= code_point(#[trigger] password[i])
                <= code_point('9'),
{
    reveal_strlit("abcdefghijklmnopqrstuvwxyz");
    reveal_strlit("ABCDEFGHIJKLMNOPQRSTUVWXYZ");
    reveal_strlit("0123456789");
    lemma_class_is_range(password, lowercase_letters(), 'a');
    lemma_class_is_range(password, uppercase_letters(), 'A');
    lemma_class_is_range(password, digits(), '0');
}

/// Where a class lists the characters that follow `first` one by one, a
/// password holds a character of the class exactly if it holds one in that
/// range.
proof fn lemma_class_is_range(password: Seq<char>, class: Seq<char>, first: char)
    requires
        class.len() > 0,
        code_point(first) + class.len() < 0x80,
        forall|k: int|
            0 <= k < class.len() ==> code_point(#[trigger] class[k]) == code_point(first) + k,
    ensures
        has_any_of(password, class) <==> exists|i: int|
            0 <= i < password.len() && code_point(first) <= code_point(#[trigger] password[i])
                < code_point(first) + class.len(),
{
    if has_any_of(password, class) {
        let k = choose|k: int| 0 <= k < class.len() && password.contains(#[trigger] class[k]);
        let i = choose|i: int| 0 <= i < password.len() && password[i] == class[k];
        assert(code_point(first) <= code_point(password[i]) < code_point(first) + class.len());
    }
    if exists|i: int|
        0 <= i < password.len() && code_point(first) <= code_point(#[trigger] password[i])
            < code_point(first) + class.len() {
        let i = choose|i: int|
            0 <= i < password.len() && code_point(first) <= code_point(#[trigger] password[i])
                < code_point(first) + class.len();
        let k = code_point(password[i]) - code_point(first);
        assert(code_point(class[k]) == code_point(password[i]));
        vstd::utf8::char_u32_cast(class[k], class[k] as u32);
        vstd::utf8::char_u32_cast(password[i], password[i] as u32);
        assert(class[k] == password[i]);
        assert(password.contains(class[k]));
    }
}

} // verus!
