use coisando_coisas::auth::{
    check_registration, register_new_user, registration_refusal, send_confirmation_email, settle_registration,
    stage_registration, write_registration, NewAccountIds, UserRegisterError, UserRegisterForm,
};
use coisando_coisas::credential::verify;
use coisando_coisas::model::{ConfirmationCode, StoreError};
use coisando_coisas::store::Store;
use coisando_coisas::AccountStatus;

fn form(nickname: &str, email: &str, password: &str) -> UserRegisterForm {
    UserRegisterForm {
        nickname: nickname.to_string(),
        email: email.to_string(),
        password: password.to_string(),
    }
}

#[test]
fn registration_writes_a_pending_account_and_one_code() {
    let mut store = Store::new();
    let done = register_new_user(&mut store, &form("ana", "ana@unb.br", "Abc123!@"), 1700)
        .expect("registration goes through");
    assert_eq!(done.email, "ana@unb.br");
    assert_eq!(store.user_count(), 1);
    assert_eq!(store.code_count(), 1);
    let user = store.find_user(done.ids.user_id).expect("the account is there");
    assert_eq!(user.nickname, "ana");
    assert_eq!(user.email, "ana@unb.br");
    assert_eq!(user.status, AccountStatus::PENDING);
    assert_eq!(user.avatar_seed, done.ids.avatar_seed);
    assert_eq!(user.created_at, 1700);
    assert!(verify("Abc123!@", &user.hashed_password));
    assert_eq!(
        store.codes_of(done.ids.user_id),
        vec![ConfirmationCode { code: done.ids.code, user_id: done.ids.user_id }]
    );
    assert_eq!(store.code_owner(done.ids.code), Some(done.ids.user_id));
}

#[test]
fn undelivered_notice_rolls_the_registration_back() {
    let mut store = Store::new();
    register_new_user(&mut store, &form("bia", "bia@unb.br", "Abc123!@"), 1).unwrap();
    let staged = stage_registration(&mut store, &form("ana", "ana@unb.br", "Abc123!@"), 2)
        .expect("the rows are written");
    assert_eq!(store.user_count(), 2);
    assert_eq!(store.code_count(), 2);
    let settled = settle_registration(&mut store, &staged, false);
    assert_eq!(settled, Err(UserRegisterError::InternalError));
    assert_eq!(store.user_count(), 1);
    assert_eq!(store.code_count(), 1);
    assert!(store.find_user(staged.ids.user_id).is_none());
    assert_eq!(store.code_owner(staged.ids.code), None);
    assert!(!store.nickname_in_use("ana"));
    assert!(!store.email_in_use("ana@unb.br"));
    assert!(store.nickname_in_use("bia"));
}

#[test]
fn delivered_notice_keeps_the_registration() {
    let mut store = Store::new();
    let staged =
        stage_registration(&mut store, &form("ana", "ana@unb.br", "Abc123!@"), 2).unwrap();
    assert_eq!(settle_registration(&mut store, &staged, true), Ok(()));
    assert_eq!(store.user_count(), 1);
    assert_eq!(store.code_count(), 1);
}

#[test]
fn rolled_back_nickname_can_be_registered_again() {
    let mut store = Store::new();
    let staged =
        stage_registration(&mut store, &form("ana", "ana@unb.br", "Abc123!@"), 2).unwrap();
    let _ = settle_registration(&mut store, &staged, false);
    assert!(register_new_user(&mut store, &form("ana", "ana@unb.br", "Abc123!@"), 3).is_ok());
}

#[test]
fn second_registration_with_same_nickname_is_refused() {
    let mut store = Store::new();
    register_new_user(&mut store, &form("ana", "ana@unb.br", "Abc123!@"), 1).unwrap();
    let again = register_new_user(&mut store, &form("ana", "outra@unb.br", "Abc123!@"), 2);
    assert_eq!(again, Err(UserRegisterError::NicknameInUse));
    assert_eq!(store.user_count(), 1);
    assert_eq!(store.code_count(), 1);
}

#[test]
fn second_registration_with_same_email_is_refused() {
    let mut store = Store::new();
    register_new_user(&mut store, &form("ana", "ana@unb.br", "Abc123!@"), 1).unwrap();
    let again = register_new_user(&mut store, &form("bia", "ana@unb.br", "Abc123!@"), 2);
    assert_eq!(again, Err(UserRegisterError::EmailInUse));
    assert_eq!(store.user_count(), 1);
}

#[test]
fn nickname_is_judged_before_email_and_password() {
    let mut store = Store::new();
    register_new_user(&mut store, &form("ana", "ana@unb.br", "Abc123!@"), 1).unwrap();
    assert_eq!(
        check_registration(&store, &form("ana", "ana@unb.br", "abc")),
        Err(UserRegisterError::NicknameInUse)
    );
    assert_eq!(
        check_registration(&store, &form("bia", "ana@unb.br", "abc")),
        Err(UserRegisterError::EmailInUse)
    );
    assert_eq!(
        check_registration(&store, &form("bia", "bia@unb.br", "abc")),
        Err(UserRegisterError::PasswordTooShort)
    );
    assert_eq!(
        check_registration(&store, &form("bia", "bia@unb.br", "abcdefgh")),
        Err(UserRegisterError::PasswordWeak)
    );
    assert_eq!(check_registration(&store, &form("bia", "bia@unb.br", "Abc123!@")), Ok(()));
}

#[test]
fn refused_registration_writes_nothing() {
    let mut store = Store::new();
    assert_eq!(
        register_new_user(&mut store, &form("ana", "ana@unb.br", "abc"), 1),
        Err(UserRegisterError::PasswordTooShort)
    );
    assert_eq!(
        register_new_user(&mut store, &form("ana", "ana@unb.br", "abcdefgh"), 1),
        Err(UserRegisterError::PasswordWeak)
    );
    assert_eq!(store.user_count(), 0);
    assert_eq!(store.code_count(), 0);
}

#[test]
fn nicknames_differ_by_case() {
    let mut store = Store::new();
    register_new_user(&mut store, &form("ana", "ana@unb.br", "Abc123!@"), 1).unwrap();
    assert!(register_new_user(&mut store, &form("Ana", "ana2@unb.br", "Abc123!@"), 2).is_ok());
    assert_eq!(store.user_count(), 2);
}

#[test]
fn of_two_checked_registrations_under_one_nickname_one_is_written() {
    let mut store = Store::new();
    let first = form("ana", "ana@unb.br", "Abc123!@");
    let second = form("ana", "outra@unb.br", "Abc123!@");
    // both pass the checks against the same tables
    assert_eq!(check_registration(&store, &first), Ok(()));
    assert_eq!(check_registration(&store, &second), Ok(()));
    let a = NewAccountIds { user_id: 1, avatar_seed: 2, code: 3 };
    let b = NewAccountIds { user_id: 4, avatar_seed: 5, code: 6 };
    assert!(write_registration(&mut store, &first, "c1".to_string(), a, 10).is_ok());
    assert_eq!(
        write_registration(&mut store, &second, "c2".to_string(), b, 11),
        Err(UserRegisterError::NicknameInUse)
    );
    assert_eq!(store.user_count(), 1);
    assert_eq!(store.code_count(), 1);
    assert_eq!(store.find_user_by_nickname("ana").unwrap().id, 1);
}

#[test]
fn of_two_checked_registrations_under_one_email_one_is_written() {
    let mut store = Store::new();
    let a = NewAccountIds { user_id: 1, avatar_seed: 2, code: 3 };
    let b = NewAccountIds { user_id: 4, avatar_seed: 5, code: 6 };
    let first = form("ana", "ana@unb.br", "Abc123!@");
    let second = form("bia", "ana@unb.br", "Abc123!@");
    assert!(write_registration(&mut store, &first, "c1".to_string(), a, 10).is_ok());
    assert_eq!(
        write_registration(&mut store, &second, "c2".to_string(), b, 11),
        Err(UserRegisterError::EmailInUse)
    );
    assert_eq!(store.user_count(), 1);
}

#[test]
fn identifier_in_use_is_an_internal_error_and_writes_nothing() {
    let mut store = Store::new();
    let a = NewAccountIds { user_id: 1, avatar_seed: 2, code: 3 };
    write_registration(&mut store, &form("ana", "ana@unb.br", "x"), "c1".to_string(), a, 10)
        .unwrap();
    let same_user = NewAccountIds { user_id: 1, avatar_seed: 7, code: 8 };
    assert_eq!(
        write_registration(&mut store, &form("bia", "bia@unb.br", "x"), "c".to_string(), same_user, 11),
        Err(UserRegisterError::InternalError)
    );
    let same_code = NewAccountIds { user_id: 9, avatar_seed: 7, code: 3 };
    assert_eq!(
        write_registration(&mut store, &form("bia", "bia@unb.br", "x"), "c".to_string(), same_code, 11),
        Err(UserRegisterError::InternalError)
    );
    assert_eq!(store.user_count(), 1);
    assert_eq!(store.code_count(), 1);
    let nickname_first = NewAccountIds { user_id: 9, avatar_seed: 7, code: 3 };
    assert_eq!(
        write_registration(&mut store, &form("ana", "bia@unb.br", "x"), "c".to_string(), nickname_first, 11),
        Err(UserRegisterError::NicknameInUse)
    );
}

#[test]
fn written_registration_holds_what_was_given() {
    let mut store = Store::new();
    let ids = NewAccountIds { user_id: 11, avatar_seed: 22, code: 33 };
    let done = write_registration(
        &mut store,
        &form("ana", "ana@unb.br", "ignored here"),
        "credential".to_string(),
        ids,
        99,
    )
    .unwrap();
    assert_eq!(done.ids, ids);
    assert_eq!(done.email, "ana@unb.br");
    let user = store.find_user(11).unwrap();
    assert_eq!(user.hashed_password, "credential");
    assert_eq!(user.avatar_seed, 22);
    assert_eq!(user.created_at, 99);
    assert_eq!(user.status, AccountStatus::PENDING);
    assert_eq!(store.code_owner(33), Some(11));
}

#[test]
fn registration_goes_through_with_the_stand_in_notifier() {
    let mut store = Store::new();
    let delivered = send_confirmation_email("ana@unb.br", 7).is_ok();
    let staged =
        stage_registration(&mut store, &form("ana", "ana@unb.br", "Abc123!@"), 2).unwrap();
    let settled = settle_registration(&mut store, &staged, delivered);
    assert_eq!(settled.is_ok(), delivered);
    assert_eq!(store.user_count(), if delivered { 1 } else { 0 });
}

#[test]
fn refused_row_is_told_as_the_conflict_it_is() {
    assert_eq!(
        registration_refusal(StoreError::DuplicateNickname),
        UserRegisterError::NicknameInUse
    );
    assert_eq!(registration_refusal(StoreError::DuplicateEmail), UserRegisterError::EmailInUse);
    for other in [
        StoreError::DuplicateUserId,
        StoreError::DuplicateCode,
        StoreError::DuplicateListingId,
        StoreError::DuplicateAttachmentId,
        StoreError::NoSuchUser,
        StoreError::NoSuchListing,
    ] {
        assert_eq!(registration_refusal(other), UserRegisterError::InternalError);
    }
}
