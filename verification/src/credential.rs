use vstd::prelude::*;
use argon2::password_hash::rand_core::OsRng;
use argon2::password_hash::{PasswordHasher, PasswordVerifier, SaltString};
use argon2::{Argon2, PasswordHash};
use crate::text::str_eq;

verus! {

/// What checking a password against a stored credential gives: nothing where
/// the credential is not a well-formed hash string, else whether Argon2 with
/// the parameters and salt embedded in the credential maps the password to the
/// output embedded in it.
pub uninterp spec fn argon2_check(password: Seq<char>, credential: Seq<char>) -> Option<bool>;

/// The parameters that a credential names, each with its name and, where its
/// value is a decimal number, that number, in the order in which the
/// credential names them; nothing where the credential is not a well-formed
/// hash string. A name may occur more than once.
pub uninterp spec fn phc_parameters(credential: Seq<char>) -> Option<Seq<(Seq<char>, Option<u32>)>>;

/// The highest degree of parallelism that a credential may name and still
/// be checked.
pub const MAX_PARALLELISM: u32 = 0xFF_FFFF;

/// Why no credential could be made.
#[derive(Debug, Clone, Copy, PartialEq, Eq, Structural)]
pub enum CredentialError {
    /// The hashing function reported a failure.
    HashingFailed,
}

/// What a list of parameters holds.
pub open spec fn parameter_views(params: Seq<(String, Option<u32>)>) -> Seq<
    (Seq<char>, Option<u32>),
> {
    params.map_values(|entry: (String, Option<u32>)| (entry.0@, entry.1))
}

/// The degree of parallelism that a list of parameters names: the number of
/// the last parameter that is called `p`, which is the one that counts where
/// the name occurs more than once. Nothing where no parameter is called `p`
/// or the last such is no number.
pub open spec fn last_parallelism(params: Seq<(Seq<char>, Option<u32>)>) -> Option<u32>
    decreases params.len(),
{
    if params.len() == 0 {
        None
    } else if params.last().0 == "p"@ {
        params.last().1
    } else {
        last_parallelism(params.drop_last())
    }
}

/// Whether a credential may be checked: it is one unless it names a degree
/// of parallelism above `MAX_PARALLELISM`.
pub open spec fn parallelism_within_limit(credential: Seq<char>) -> bool {
    match phc_parameters(credential) {
        None => true,
        Some(params) => match last_parallelism(params) {
            None => true,
            Some(degree) => degree <= MAX_PARALLELISM,
        },
    }
}

/// What checking a password against a stored credential gives here: a
/// credential that names too high a degree of parallelism matches no
/// password and is not handed to Argon2; any other is answered by Argon2.
pub open spec fn credential_check(password: Seq<char>, credential: Seq<char>) -> Option<bool> {
    if parallelism_within_limit(credential) {
        argon2_check(password, credential)
    } else {
        Some(false)
    }
}

/// Calls `argon2::password_hash::SaltString::generate` on the operating
/// system's random source and then `Argon2::default().hash_password`, and hands
/// out the hash string where hashing succeeds. The salt is random, so the text
/// itself is not pinned down; the claim is that a credential that was handed
/// out names the default degree of parallelism, which is within the limit,
/// and checks against the password it was made from. The call panics where
/// the operating system's random source fails; no password decides that.
#[verifier::external_body]
pub(crate) fn argon2_hash(password: &str) -> (credential: Option<String>)
    ensures
        credential matches Some(text) ==> parallelism_within_limit(text@) && argon2_check(
            password@,
            text@,
        ) == Some(true),
{
    let salt = SaltString::generate(OsRng);
    match Argon2::default().hash_password(password.as_bytes(), &salt) {
        Ok(hashed) => Some(hashed.to_string()),
        Err(_) => None,
    }
}

/// Calls `argon2::PasswordHash::new` on the credential and hands out the
/// parameters that `ParamsString::iter` walks, each as its name and what
/// `Value::decimal` makes of its value. The claim is only that they are the
/// ones named `phc_parameters` for this credential.
#[verifier::external_body]
pub(crate) fn phc_read_parameters(credential: &str) -> (params: Option<Vec<(String, Option<u32>)>>)
    ensures
        match params {
            Some(list) => phc_parameters(credential@) == Some(parameter_views(list@)),
            None => phc_parameters(credential@) is None,
        },
{
    match PasswordHash::new(credential) {
        Ok(parsed) => Some(
            parsed.params.iter().map(|(name, value)| (name.as_str().to_string(), value.decimal().ok())).collect(),
        ),
        Err(_) => None,
    }
}

/// Calls `argon2::PasswordHash::new` on the credential and, where that
/// succeeds, `Argon2::default().verify_password`. The claim is only that the
/// outcome is the one named `argon2_check` for this password and credential.
/// A credential that names a degree of parallelism of 2^29 or more is left
/// out: the call multiplies that number by eight in 32 bits before it holds
/// it against its maximum. The check takes as much memory as the credential
/// names; one made by `argon2_hash` names the default.
#[verifier::external_body]
pub(crate) fn argon2_verify(password: &str, credential: &str) -> (outcome: Option<bool>)
    requires
        parallelism_within_limit(credential@),
    ensures
        outcome == argon2_check(password@, credential@),
{
    match PasswordHash::new(credential) {
        Ok(parsed) => Some(Argon2::default().verify_password(password.as_bytes(), &parsed).is_ok()),
        Err(_) => None,
    }
}

/// Makes a salted credential for `password`. A credential that is returned
/// checks against that password.
pub fn hash(password: &str) -> (credential: Result<String, CredentialError>)
    ensures
        credential matches Ok(text) ==> credential_check(password@, text@) == Some(true),
{
    credential_from(argon2_hash(password))
}

/// Whether `password` is the one that `credential` was made from. A credential
/// that cannot be read, or that names too high a degree of parallelism,
/// matches no password.
pub fn verify(password: &str, credential: &str) -> (matches: bool)
    ensures
        matches == (credential_check(password@, credential@) == Some(true)),
{
    match check_credential(password, credential) {
        Some(matched) => matched,
        None => false,
    }
}

/// What an attempt at hashing is worth: the credential where one came out
/// of it, unchanged, and the failure where none did.
pub fn credential_from(outcome: Option<String>) -> (credential: Result<String, CredentialError>)
    ensures
        credential == match outcome {
            Some(text) => Ok::<String, CredentialError>(text),
            None => Err::<String, CredentialError>(CredentialError::HashingFailed),
        },
{
    match outcome {
        Some(text) => Ok(text),
        None => Err(CredentialError::HashingFailed),
    }
}

/// The degree of parallelism that a list of parameters names.
pub fn named_parallelism(params: &Vec<(String, Option<u32>)>) -> (named: Option<u32>)
    ensures
        named == last_parallelism(parameter_views(params@)),
{
    let ghost all = parameter_views(params@);
    let mut i: usize = params.len();
    proof {
        assert(all.take(i as int) =~= all);
        reveal_strlit("p");
    }
    while i > 0
        invariant
            i <= params.len(),
            all == parameter_views(params@),
            last_parallelism(all) == last_parallelism(all.take(i as int)),
        decreases i,
    {
        i -= 1;
        proof {
            assert(all.take(i + 1).drop_last() =~= all.take(i as int));
            assert(all.take(i + 1).last() == (params@[i as int].0@, params@[i as int].1));
        }
        if str_eq(params[i].0.as_str(), "p") {
            return params[i].1;
        }
    }
    None
}

/// Whether `credential` may be checked: it may unless it names a degree of
/// parallelism above `MAX_PARALLELISM`.
pub fn may_check(credential: &str) -> (allowed: bool)
    ensures
        allowed == parallelism_within_limit(credential@),
{
    match phc_read_parameters(credential) {
        None => true,
        Some(params) => match named_parallelism(&params) {
            None => true,
            Some(degree) => degree <= MAX_PARALLELISM,
        },
    }
}

/// Checks `password` against `credential`: nothing where the credential
/// cannot be read, else whether the password is the one that it was made
/// from. A credential that names too high a degree of parallelism matches no
/// password.
pub fn check_credential(password: &str, credential: &str) -> (outcome: Option<bool>)
    ensures
        outcome == credential_check(password@, credential@),
{
    if may_check(credential) {
        argon2_verify(password, credential)
    } else {
        Some(false)
    }
}

} // verus!
