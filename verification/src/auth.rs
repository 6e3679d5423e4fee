use vstd::prelude::*;
use crate::credential::{check_credential, credential_check, hash};
use crate::domain::AccountStatus;
use crate::identity::{LocalUser, LocalUserView};
use crate::ids::random_id;
use crate::laws::{
    law_confirmation_code_is_single_use, law_registration_writes_pending_account_and_one_code,
    law_undelivered_registration_leaves_no_row,
};
use crate::model::{ConfirmationCode, StoreError, StoreView, User, UserView};
use crate::password::{check_password, policy, PasswordError};
use crate::store::Store;

verus! {

/// What a registration form submits.
#[derive(Debug, Clone, PartialEq, Eq)]
pub struct UserRegisterForm {
    pub nickname: String,
    pub email: String,
    pub password: String,
}

/// Why a registration did not go through.
#[derive(Debug, Clone, Copy, PartialEq, Eq, Structural)]
pub enum UserRegisterError {
    NicknameInUse,
    EmailInUse,
    PasswordTooShort,
    PasswordWeak,
    /// Any other failure: hashing, a refused row, an undelivered notice.
    InternalError,
}

/// The three random identifiers that a new account needs.
#[derive(Debug, Clone, Copy, PartialEq, Eq, Structural)]
pub struct NewAccountIds {
    pub user_id: u128,
    pub avatar_seed: u128,
    pub code: u128,
}

/// An account whose rows have been written: the confirmation notice goes to
/// `email` and carries `ids.code`.
#[derive(Debug, Clone, PartialEq, Eq)]
pub struct Registration {
    pub ids: NewAccountIds,
    pub email: String,
}

/// What the checks on a registration form say: the nickname is judged first,
/// then the email, then the password.
pub open spec fn registration_verdict(
    store: StoreView,
    nickname: Seq<char>,
    email: Seq<char>,
    password: Seq<char>,
) -> Result<(), UserRegisterError> {
    if store.nickname_taken(nickname) {
        Err(UserRegisterError::NicknameInUse)
    } else if store.email_taken(email) {
        Err(UserRegisterError::EmailInUse)
    } else {
        match policy(password) {
            Err(PasswordError::TooShort) => Err(UserRegisterError::PasswordTooShort),
            Err(PasswordError::Weak) => Err(UserRegisterError::PasswordWeak),
            Ok(()) => Ok(()),
        }
    }
}

/// The account row that a registration writes.
pub open spec fn new_user_row(
    nickname: Seq<char>,
    email: Seq<char>,
    credential: Seq<char>,
    ids: NewAccountIds,
    now: u64,
) -> UserView {
    UserView {
        id: ids.user_id,
        nickname,
        email,
        hashed_password: credential,
        avatar_seed: ids.avatar_seed,
        status: AccountStatus::PENDING,
        created_at: now,
    }
}

/// Whether the rows of a new account with these identifiers can be written.
pub open spec fn ids_are_fresh(store: StoreView, ids: NewAccountIds) -> bool {
    !store.has_user(ids.user_id) && !store.has_code(ids.code)
}

/// The tables after the rows of a new account have been written.
pub open spec fn with_registration(
    store: StoreView,
    nickname: Seq<char>,
    email: Seq<char>,
    credential: Seq<char>,
    ids: NewAccountIds,
    now: u64,
) -> StoreView {
    store.with_user(new_user_row(nickname, email, credential, ids, now)).with_code(
        ConfirmationCode { code: ids.code, user_id: ids.user_id },
    )
}

/// Runs the checks on a registration form against the tables.
pub fn check_registration(store: &Store, details: &UserRegisterForm) -> (verdict: Result<
    (),
    UserRegisterError,
>)
    ensures
        verdict == registration_verdict(
            store@,
            details.nickname@,
            details.email@,
            details.password@,
        ),
{
    if store.nickname_in_use(details.nickname.as_str()) {
        return Err(UserRegisterError::NicknameInUse);
    }
    if store.email_in_use(details.email.as_str()) {
        return Err(UserRegisterError::EmailInUse);
    }
    match check_password(details.password.as_str()) {
        Err(PasswordError::TooShort) => Err(UserRegisterError::PasswordTooShort),
        Err(PasswordError::Weak) => Err(UserRegisterError::PasswordWeak),
        Ok(()) => Ok(()),
    }
}

/// What a refused row means for the person who registers: a nickname or an
/// email that is in use is told as such, any other refusal is an internal
/// error.
pub open spec fn registration_refusal_of(refusal: StoreError) -> UserRegisterError {
    match refusal {
        StoreError::DuplicateNickname => UserRegisterError::NicknameInUse,
        StoreError::DuplicateEmail => UserRegisterError::EmailInUse,
        _ => UserRegisterError::InternalError,
    }
}

/// Says what a refused row means for the person who registers. A conflict
/// on the nickname or the email is a conflict whether the checks saw it
/// coming or the tables found it when the row was written.
pub fn registration_refusal(refusal: StoreError) -> (error: UserRegisterError)
    ensures
        error == registration_refusal_of(refusal),
{
    match refusal {
        StoreError::DuplicateNickname => UserRegisterError::NicknameInUse,
        StoreError::DuplicateEmail => UserRegisterError::EmailInUse,
        _ => UserRegisterError::InternalError,
    }
}

/// Whether the rows of a new account can be written: a nickname or an email
/// that is in use is reported as such, an identifier that is in use is an
/// internal error.
pub open spec fn write_verdict(
    store: StoreView,
    nickname: Seq<char>,
    email: Seq<char>,
    ids: NewAccountIds,
) -> Result<(), UserRegisterError> {
    if store.nickname_taken(nickname) {
        Err(UserRegisterError::NicknameInUse)
    } else if store.email_taken(email) {
        Err(UserRegisterError::EmailInUse)
    } else if !ids_are_fresh(store, ids) {
        Err(UserRegisterError::InternalError)
    } else {
        Ok(())
    }
}

/// Writes the rows of a new account, given the credential and the
/// identifiers made for it: the account with status `PENDING`, and one
/// confirmation code issued to it. Either both rows are written or none is.
pub fn write_registration(
    store: &mut Store,
    details: &UserRegisterForm,
    credential: String,
    ids: NewAccountIds,
    now: u64,
) -> (outcome: Result<Registration, UserRegisterError>)
    ensures
        final(store)@.wf(),
        match outcome {
            Ok(registration) => {
                &&& write_verdict(old(store)@, details.nickname@, details.email@, ids).is_ok()
                &&& final(store)@ == with_registration(
                    old(store)@,
                    details.nickname@,
                    details.email@,
                    credential@,
                    ids,
                    now,
                )
                &&& registration.ids == ids
                &&& registration.email@ == details.email@
            },
            Err(error) => {
                &&& write_verdict(old(store)@, details.nickname@, details.email@, ids) == Err::<
                    (),
                    UserRegisterError,
                >(error)
                &&& final(store)@ == old(store)@
            },
        },
{
    proof {
        use_type_invariant(&*store);
    }
    if store.code_owner(ids.code).is_some() {
        return Err(
            if store.nickname_in_use(details.nickname.as_str()) {
                UserRegisterError::NicknameInUse
            } else if store.email_in_use(details.email.as_str()) {
                UserRegisterError::EmailInUse
            } else {
                UserRegisterError::InternalError
            },
        );
    }
    let user = User {
        id: ids.user_id,
        nickname: details.nickname.clone(),
        email: details.email.clone(),
        hashed_password: credential,
        avatar_seed: ids.avatar_seed,
        status: AccountStatus::PENDING,
        created_at: now,
    };
    match store.insert_user(user) {
        Err(refusal) => Err(registration_refusal(refusal)),
        Ok(()) => {
            let written = store.insert_code(ConfirmationCode { code: ids.code, user_id: ids.user_id });
            assert(written.is_ok()) by {
                let row = new_user_row(details.nickname@, details.email@, credential@, ids, now);
                let t = old(store)@.with_user(row);
                assert(t.users[t.users.len() - 1].id == ids.user_id);
            }
            Ok(Registration { ids, email: details.email.clone() })
        },
    }
}

/// Whether `after` is `before` with the rows of a new account for this form,
/// under a credential that checks against the form's password.
pub open spec fn registered(
    before: StoreView,
    after: StoreView,
    nickname: Seq<char>,
    email: Seq<char>,
    password: Seq<char>,
    ids: NewAccountIds,
    now: u64,
) -> bool {
    exists|credential: Seq<char>|
        credential_check(password, credential) == Some(true) && after == #[trigger] with_registration(
            before,
            nickname,
            email,
            credential,
            ids,
            now,
        )
}

/// Whether the tables hold the account of a registration with status
/// `PENDING`, and exactly one confirmation code for it: the one that was
/// issued.
pub open spec fn holds_pending_registration(
    store: StoreView,
    nickname: Seq<char>,
    email: Seq<char>,
    ids: NewAccountIds,
) -> bool {
    &&& store.user(ids.user_id) matches Some(row) && row.status == AccountStatus::PENDING
        && row.nickname == nickname && row.email == email && row.avatar_seed == ids.avatar_seed
    &&& store.codes_of(ids.user_id) == seq![
        ConfirmationCode { code: ids.code, user_id: ids.user_id },
    ]
    &&& store.code_owner(ids.code) == Some(ids.user_id)
}

/// Runs the checks on a registration form, makes a credential and fresh
/// identifiers, and writes the rows of the new account. What is left is to
/// send the confirmation notice and to settle the registration by whether it
/// went out.
///
/// A form that fails a check is refused with the error of the first failing
/// check. A form that passes every check either is written in full or leaves
/// the tables as they were, with an internal error.
pub fn stage_registration(store: &mut Store, details: &UserRegisterForm, now: u64) -> (outcome:
    Result<Registration, UserRegisterError>)
    ensures
        final(store)@.wf(),
        match outcome {
            Ok(registration) => {
                &&& registration_verdict(
                    old(store)@,
                    details.nickname@,
                    details.email@,
                    details.password@,
                ).is_ok()
                &&& ids_are_fresh(old(store)@, registration.ids)
                &&& registered(
                    old(store)@,
                    final(store)@,
                    details.nickname@,
                    details.email@,
                    details.password@,
                    registration.ids,
                    now,
                )
                &&& holds_pending_registration(
                    final(store)@,
                    details.nickname@,
                    details.email@,
                    registration.ids,
                )
                &&& registration.email@ == details.email@
            },
            Err(error) => {
                &&& final(store)@ == old(store)@
                &&& error == match registration_verdict(
                    old(store)@,
                    details.nickname@,
                    details.email@,
                    details.password@,
                ) {
                    Err(refusal) => refusal,
                    Ok(()) => UserRegisterError::InternalError,
                }
            },
        },
{
    proof {
        use_type_invariant(&*store);
    }
    match check_registration(store, details) {
        Err(refusal) => {
            return Err(refusal);
        },
        Ok(()) => {},
    }
    let credential = match hash(details.password.as_str()) {
        Ok(text) => text,
        Err(_) => {
            return Err(UserRegisterError::InternalError);
        },
    };
    let ids = NewAccountIds { user_id: random_id(), avatar_seed: random_id(), code: random_id() };
    let ghost text = credential@;
    let outcome = write_registration(store, details, credential, ids, now);
    proof {
        if outcome.is_ok() {
            assert(store@ == with_registration(
                old(store)@,
                details.nickname@,
                details.email@,
                text,
                ids,
                now,
            ));
            law_registration_writes_pending_account_and_one_code(
                old(store)@,
                details.nickname@,
                details.email@,
                text,
                ids,
                now,
            );
        }
    }
    outcome
}

/// Settles a staged registration by whether its confirmation notice went
/// out. A notice that went out leaves the rows in place. One that did not
/// takes the account and its code out again and is an internal error.
pub fn settle_registration(store: &mut Store, registration: &Registration, delivered: bool) -> (outcome:
    Result<(), UserRegisterError>)
    ensures
        final(store)@.wf(),
        outcome == if delivered {
            Ok::<(), UserRegisterError>(())
        } else {
            Err::<(), UserRegisterError>(UserRegisterError::InternalError)
        },
        final(store)@ == if delivered {
            old(store)@
        } else {
            old(store)@.without_user(registration.ids.user_id)
        },
{
    proof {
        use_type_invariant(&*store);
    }
    if delivered {
        Ok(())
    } else {
        store.delete_user(registration.ids.user_id);
        Err(UserRegisterError::InternalError)
    }
}

/// Hands the confirmation code to the person who registered, and says
/// whether it went out. This stands in for a notifier: as it is, nothing is
/// sent and accounts are confirmed by hand. Whoever calls it takes either
/// answer.
pub fn send_confirmation_email(email: &str, code: u128) -> (sent: Result<(), ()>) {
    Ok(())
}

/// Registers a new account: checks the form, writes the account with status
/// `PENDING` and one confirmation code for it, and hands the code out. A
/// registration whose code cannot be handed out leaves no row behind.
pub fn register_new_user(store: &mut Store, details: &UserRegisterForm, now: u64) -> (outcome:
    Result<Registration, UserRegisterError>)
    ensures
        final(store)@.wf(),
        match outcome {
            Ok(registration) => {
                &&& registration_verdict(
                    old(store)@,
                    details.nickname@,
                    details.email@,
                    details.password@,
                ).is_ok()
                &&& ids_are_fresh(old(store)@, registration.ids)
                &&& registered(
                    old(store)@,
                    final(store)@,
                    details.nickname@,
                    details.email@,
                    details.password@,
                    registration.ids,
                    now,
                )
                &&& holds_pending_registration(
                    final(store)@,
                    details.nickname@,
                    details.email@,
                    registration.ids,
                )
                &&& registration.email@ == details.email@
            },
            Err(error) => {
                &&& final(store)@ == old(store)@
                &&& error == match registration_verdict(
                    old(store)@,
                    details.nickname@,
                    details.email@,
                    details.password@,
                ) {
                    Err(refusal) => refusal,
                    Ok(()) => UserRegisterError::InternalError,
                }
            },
        },
{
    proof {
        use_type_invariant(&*store);
    }
    let registration = match stage_registration(store, details, now) {
        Ok(staged) => staged,
        Err(error) => {
            return Err(error);
        },
    };
    let ghost staged = store@;
    let delivered = send_confirmation_email(registration.email.as_str(), registration.ids.code).is_ok();
    proof {
        if !delivered {
            let credential = choose|credential: Seq<char>|
                credential_check(details.password@, credential) == Some(true) && staged
                    == #[trigger] with_registration(
                    old(store)@,
                    details.nickname@,
                    details.email@,
                    credential,
                    registration.ids,
                    now,
                );
            law_undelivered_registration_leaves_no_row(
                old(store)@,
                details.nickname@,
                details.email@,
                credential,
                registration.ids,
                now,
            );
        }
    }
    match settle_registration(store, &registration, delivered) {
        Ok(()) => Ok(registration),
        Err(error) => Err(error),
    }
}

/// What a confirmation link submits.
#[derive(Debug, Clone, Copy, PartialEq, Eq, Structural)]
pub struct VerificationInfo {
    pub code: u128,
}

/// Why a confirmation did not go through.
#[derive(Debug, Clone, Copy, PartialEq, Eq, Structural)]
pub enum UserVerificationError {
    /// The code is not there: it was never issued or it has been redeemed.
    CodeInvalid,
    /// The code is there but no session could be made for its account.
    InternalError,
}

/// What redeeming `code` gives: the account it was issued to, where the code
/// is there and a session was made for that account.
pub open spec fn confirmation_verdict(store: StoreView, code: u128, session_created: bool) -> Result<
    u128,
    UserVerificationError,
> {
    match store.code_owner(code) {
        None => Err(UserVerificationError::CodeInvalid),
        Some(owner) => if session_created {
            Ok(owner)
        } else {
            Err(UserVerificationError::InternalError)
        },
    }
}

/// The status of an account once a code of its has been redeemed: a pending
/// account is confirmed, an account of any other status keeps it.
pub open spec fn status_after_confirmation(status: AccountStatus) -> AccountStatus {
    if status == AccountStatus::PENDING {
        AccountStatus::CONFIRMED
    } else {
        status
    }
}

/// The tables after `code` has been redeemed: the code is gone, and the
/// account it was issued to is confirmed where it was pending.
pub open spec fn with_confirmation(store: StoreView, code: u128) -> StoreView {
    match store.code_owner(code) {
        None => store,
        Some(owner) => store.without_code(code).with_confirmed(owner),
    }
}

/// Redeems a confirmation code. `session_created` says whether a session
/// could be made for the account that the code was issued to (see
/// `Store::code_owner`); it is not looked at where the code is not there.
///
/// On success the code is removed, its account goes from pending to
/// confirmed, and the account's id is returned. The only change of status
/// that a redemption makes is that one: an account that is not pending keeps
/// its status. On any failure the tables are left as they were.
pub fn confirm_account(store: &mut Store, details: &VerificationInfo, session_created: bool) -> (outcome:
    Result<u128, UserVerificationError>)
    ensures
        final(store)@.wf(),
        outcome == confirmation_verdict(old(store)@, details.code, session_created),
        final(store)@ == if outcome.is_ok() {
            with_confirmation(old(store)@, details.code)
        } else {
            old(store)@
        },
        outcome matches Ok(owner) ==> {
            &&& !final(store)@.has_code(details.code)
            &&& old(store)@.user(owner) matches Some(before) && final(store)@.user(owner)
                == Some(
                UserView { status: status_after_confirmation(before.status), ..before },
            )
        },
{
    proof {
        use_type_invariant(&*store);
    }
    let owner = match store.code_owner(details.code) {
        None => {
            return Err(UserVerificationError::CodeInvalid);
        },
        Some(owner) => owner,
    };
    if !session_created {
        return Err(UserVerificationError::InternalError);
    }
    proof {
        law_confirmation_code_is_single_use(store@, details.code, true);
    }
    store.delete_code(details.code);
    store.confirm_user(owner);
    Ok(owner)
}

/// What a login form submits.
#[derive(Debug, Clone, PartialEq, Eq)]
pub struct UserLoginForm {
    pub nickname: String,
    pub password: String,
}

/// Why a login did not go through.
#[derive(Debug, Clone, Copy, PartialEq, Eq, Structural)]
pub enum LoginError {
    /// No confirmed account goes by the nickname, or the password is not its
    /// password. Which of the two is not told.
    InvalidCredentials,
    /// The stored credential cannot be read.
    InternalError,
}

/// What checking a password against the credential of a confirmed account
/// gives for the login.
pub open spec fn judge_credential(check: Option<bool>, user_id: u128) -> Result<u128, LoginError> {
    match check {
        None => Err(LoginError::InternalError),
        Some(false) => Err(LoginError::InvalidCredentials),
        Some(true) => Ok(user_id),
    }
}

/// What a login gives: the id of the confirmed account that goes by the
/// nickname, where the password checks against its credential.
pub open spec fn login_verdict(store: StoreView, nickname: Seq<char>, password: Seq<char>) -> Result<
    u128,
    LoginError,
> {
    match store.user_named(nickname) {
        None => Err(LoginError::InvalidCredentials),
        Some(user) => if user.status != AccountStatus::CONFIRMED {
            Err(LoginError::InvalidCredentials)
        } else {
            judge_credential(credential_check(password, user.hashed_password), user.id)
        },
    }
}

/// Turns the outcome of a credential check into the outcome of the login.
pub fn judge_login(check: Option<bool>, user_id: u128) -> (outcome: Result<u128, LoginError>)
    ensures
        outcome == judge_credential(check, user_id),
{
    match check {
        None => Err(LoginError::InternalError),
        Some(false) => Err(LoginError::InvalidCredentials),
        Some(true) => Ok(user_id),
    }
}

/// Logs a person in by nickname and password, and returns the id of the
/// account that the session is to be made for. Only confirmed accounts can
/// log in.
pub fn login_user(store: &Store, details: &UserLoginForm) -> (outcome: Result<u128, LoginError>)
    ensures
        outcome == login_verdict(store@, details.nickname@, details.password@),
{
    let user = match store.find_user_by_nickname(details.nickname.as_str()) {
        None => {
            return Err(LoginError::InvalidCredentials);
        },
        Some(user) => user,
    };
    if user.status != AccountStatus::CONFIRMED {
        return Err(LoginError::InvalidCredentials);
    }
    judge_login(
        check_credential(details.password.as_str(), user.hashed_password.as_str()),
        user.id,
    )
}

/// Why a change to an account's settings did not go through.
#[derive(Debug, Clone, Copy, PartialEq, Eq, Structural)]
pub enum SettingsError {
    /// The request does not come from an authenticated identity.
    NotAuthenticated,
    NicknameInUse,
    PasswordTooShort,
    PasswordWeak,
    /// Any other failure: no credential could be made, a row was refused.
    InternalError,
}

/// The tables after the identity `who` has been given the avatar seed
/// `seed`: only an authenticated identity has one to change.
pub open spec fn with_new_avatar(store: StoreView, who: LocalUserView, seed: u128) -> StoreView {
    match who.authenticated_id() {
        Some(id) => store.with_avatar_seed(id, seed),
        None => store,
    }
}

/// What a request for a change that needs no more than an authenticated
/// identity gives: it is refused for an anonymous and for a pending one.
pub open spec fn authenticated_verdict(who: LocalUserView) -> Result<(), SettingsError> {
    if who.authenticated_id().is_none() {
        Err(SettingsError::NotAuthenticated)
    } else {
        Ok(())
    }
}

/// Gives the account of `local_user` the avatar seed `seed`, whatever the
/// old one was. An identity that is not authenticated is refused, and
/// nothing changes.
pub fn reseed_avatar(store: &mut Store, local_user: &LocalUser, seed: u128) -> (outcome: Result<
    (),
    SettingsError,
>)
    ensures
        final(store)@.wf(),
        outcome == authenticated_verdict(local_user@),
        final(store)@ == with_new_avatar(old(store)@, local_user@, seed),
{
    proof {
        use_type_invariant(&*store);
    }
    match local_user.authenticated_id() {
        None => Err(SettingsError::NotAuthenticated),
        Some(id) => {
            store.set_avatar_seed(id, seed);
            Ok(())
        },
    }
}

/// Gives the account of `local_user` a new random avatar seed, whatever the
/// old one was, and returns it. An identity that is not authenticated is
/// refused, and nothing changes.
pub fn generate_avatar(store: &mut Store, local_user: &LocalUser) -> (outcome: Result<
    u128,
    SettingsError,
>)
    ensures
        final(store)@.wf(),
        match outcome {
            Ok(seed) => local_user@.authenticated_id() is Some && final(store)@
                == with_new_avatar(old(store)@, local_user@, seed),
            Err(error) => local_user@.authenticated_id() is None && error
                == SettingsError::NotAuthenticated && final(store)@ == old(store)@,
        },
{
    proof {
        use_type_invariant(&*store);
    }
    let seed = random_id();
    match reseed_avatar(store, local_user, seed) {
        Ok(()) => Ok(seed),
        Err(error) => Err(error),
    }
}

/// What a request to change a nickname gives: only an authenticated identity
/// may ask, and the nickname must not be in use by anyone.
pub open spec fn nickname_verdict(store: StoreView, who: LocalUserView, nickname: Seq<char>) -> Result<
    (),
    SettingsError,
> {
    if who.authenticated_id().is_none() {
        Err(SettingsError::NotAuthenticated)
    } else if store.nickname_taken(nickname) {
        Err(SettingsError::NicknameInUse)
    } else {
        Ok(())
    }
}

/// What a refused change of a row means for the person who changes their
/// settings: a nickname that is in use is told as such, any other refusal is
/// an internal error.
pub open spec fn settings_refusal_of(refusal: StoreError) -> SettingsError {
    match refusal {
        StoreError::DuplicateNickname => SettingsError::NicknameInUse,
        _ => SettingsError::InternalError,
    }
}

/// Says what a refused change of a row means for the person who changes
/// their settings.
pub fn settings_refusal(refusal: StoreError) -> (error: SettingsError)
    ensures
        error == settings_refusal_of(refusal),
{
    match refusal {
        StoreError::DuplicateNickname => SettingsError::NicknameInUse,
        _ => SettingsError::InternalError,
    }
}

/// Changes the nickname of the account of `local_user`, unless the new
/// nickname is in use.
pub fn change_nickname(store: &mut Store, local_user: &LocalUser, new_nickname: &str) -> (outcome:
    Result<(), SettingsError>)
    ensures
        final(store)@.wf(),
        outcome == nickname_verdict(old(store)@, local_user@, new_nickname@),
        final(store)@ == match (outcome, local_user@.authenticated_id()) {
            (Ok(()), Some(id)) => old(store)@.with_nickname(id, new_nickname@),
            _ => old(store)@,
        },
{
    proof {
        use_type_invariant(&*store);
    }
    let id = match local_user.authenticated_id() {
        None => {
            return Err(SettingsError::NotAuthenticated);
        },
        Some(id) => id,
    };
    if store.nickname_in_use(new_nickname) {
        return Err(SettingsError::NicknameInUse);
    }
    match store.set_nickname(id, new_nickname.to_owned()) {
        Ok(_) => Ok(()),
        Err(refusal) => Err(settings_refusal(refusal)),
    }
}

/// What the checks on a request to change a password say: only an
/// authenticated identity may ask, and the password must meet the strength
/// policy.
pub open spec fn password_change_verdict(who: LocalUserView, password: Seq<char>) -> Result<
    (),
    SettingsError,
> {
    if who.authenticated_id().is_none() {
        Err(SettingsError::NotAuthenticated)
    } else {
        match policy(password) {
            Err(PasswordError::TooShort) => Err(SettingsError::PasswordTooShort),
            Err(PasswordError::Weak) => Err(SettingsError::PasswordWeak),
            Ok(()) => Ok(()),
        }
    }
}

/// Runs the checks on a request to change a password.
pub fn check_password_change(local_user: &LocalUser, new_password: &str) -> (verdict: Result<
    (),
    SettingsError,
>)
    ensures
        verdict == password_change_verdict(local_user@, new_password@),
{
    if local_user.authenticated_id().is_none() {
        return Err(SettingsError::NotAuthenticated);
    }
    match check_password(new_password) {
        Err(PasswordError::TooShort) => Err(SettingsError::PasswordTooShort),
        Err(PasswordError::Weak) => Err(SettingsError::PasswordWeak),
        Ok(()) => Ok(()),
    }
}

/// Whether `after` is `before` with the credential of the account `id`
/// replaced by one that checks against `password`.
pub open spec fn password_changed(
    before: StoreView,
    after: StoreView,
    id: u128,
    password: Seq<char>,
) -> bool {
    exists|credential: Seq<char>|
        credential_check(password, credential) == Some(true) && after
            == #[trigger] before.with_credential(id, credential)
}

/// Changes the password of the account of `local_user`: the new password is
/// held to the strength policy, hashed, and the old credential is
/// overwritten. A request that passes the checks either goes through or,
/// where no credential can be made, leaves the tables as they were with an
/// internal error.
pub fn change_password(store: &mut Store, local_user: &LocalUser, new_password: &str) -> (outcome:
    Result<(), SettingsError>)
    ensures
        final(store)@.wf(),
        match outcome {
            Ok(()) => {
                &&& password_change_verdict(local_user@, new_password@).is_ok()
                &&& local_user@.authenticated_id() matches Some(id) && password_changed(
                    old(store)@,
                    final(store)@,
                    id,
                    new_password@,
                )
            },
            Err(error) => {
                &&& final(store)@ == old(store)@
                &&& error == match password_change_verdict(local_user@, new_password@) {
                    Err(refusal) => refusal,
                    Ok(()) => SettingsError::InternalError,
                }
            },
        },
{
    proof {
        use_type_invariant(&*store);
    }
    match check_password_change(local_user, new_password) {
        Err(refusal) => {
            return Err(refusal);
        },
        Ok(()) => {},
    }
    let id = match local_user.authenticated_id() {
        None => {
            return Err(SettingsError::NotAuthenticated);
        },
        Some(id) => id,
    };
    let credential = match hash(new_password) {
        Ok(text) => text,
        Err(_) => {
            return Err(SettingsError::InternalError);
        },
    };
    let ghost text = credential@;
    store.set_credential(id, credential);
    assert(store@ == old(store)@.with_credential(id, text));
    Ok(())
}

/// The tables after the identity `who` has deleted its account: only an
/// authenticated identity has one to delete.
pub open spec fn with_deletion(store: StoreView, who: LocalUserView) -> StoreView {
    match who.authenticated_id() {
        Some(id) => store.without_user(id),
        None => store,
    }
}

/// Deletes the account of `local_user` together with the confirmation codes
/// held for it; its listings and their attachments stay. An identity that is
/// not authenticated is refused, and nothing changes. The caller discards the
/// session before it calls this, whoever the identity is. A deletion cannot
/// be undone.
pub fn delete_account(store: &mut Store, local_user: &LocalUser) -> (outcome: Result<
    (),
    SettingsError,
>)
    ensures
        final(store)@.wf(),
        outcome == authenticated_verdict(local_user@),
        final(store)@ == with_deletion(old(store)@, local_user@),
{
    proof {
        use_type_invariant(&*store);
    }
    match local_user.authenticated_id() {
        None => Err(SettingsError::NotAuthenticated),
        Some(id) => {
            store.delete_user(id);
            Ok(())
        },
    }
}

} // verus!
