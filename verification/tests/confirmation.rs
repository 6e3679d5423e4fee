use coisando_coisas::auth::{
    confirm_account, login_user, register_new_user, LoginError, UserLoginForm,
    UserRegisterForm, UserVerificationError, VerificationInfo,
};
use coisando_coisas::ids::session_token;
use coisando_coisas::store::Store;
use coisando_coisas::{AccountStatus, LocalUser};

fn register(store: &mut Store, nickname: &str, password: &str) -> (u128, u128) {
    let form = UserRegisterForm {
        nickname: nickname.to_string(),
        email: format!("{}@unb.br", nickname),
        password: password.to_string(),
    };
    let done = register_new_user(store, &form, 5).expect("registration goes through");
    (done.ids.user_id, done.ids.code)
}

fn login(nickname: &str, password: &str) -> UserLoginForm {
    UserLoginForm { nickname: nickname.to_string(), password: password.to_string() }
}

#[test]
fn code_is_redeemed_once() {
    let mut store = Store::new();
    let (user_id, code) = register(&mut store, "ana", "Abc123!@");
    let first = confirm_account(&mut store, &VerificationInfo { code }, true);
    assert_eq!(first, Ok(user_id));
    assert_eq!(store.find_user(user_id).unwrap().status, AccountStatus::CONFIRMED);
    assert_eq!(store.code_count(), 0);
    assert_eq!(store.code_owner(code), None);
    let second = confirm_account(&mut store, &VerificationInfo { code }, true);
    assert_eq!(second, Err(UserVerificationError::CodeInvalid));
    assert_eq!(store.find_user(user_id).unwrap().status, AccountStatus::CONFIRMED);
}

#[test]
fn unknown_code_is_invalid_and_changes_nothing() {
    let mut store = Store::new();
    let (user_id, code) = register(&mut store, "ana", "Abc123!@");
    let other = code.wrapping_add(1);
    assert_eq!(
        confirm_account(&mut store, &VerificationInfo { code: other }, true),
        Err(UserVerificationError::CodeInvalid)
    );
    assert_eq!(
        confirm_account(&mut store, &VerificationInfo { code: other }, false),
        Err(UserVerificationError::CodeInvalid)
    );
    assert_eq!(store.find_user(user_id).unwrap().status, AccountStatus::PENDING);
    assert_eq!(store.code_owner(code), Some(user_id));
}

#[test]
fn confirmation_without_a_session_changes_nothing() {
    let mut store = Store::new();
    let (user_id, code) = register(&mut store, "ana", "Abc123!@");
    assert_eq!(
        confirm_account(&mut store, &VerificationInfo { code }, false),
        Err(UserVerificationError::InternalError)
    );
    assert_eq!(store.find_user(user_id).unwrap().status, AccountStatus::PENDING);
    assert_eq!(store.code_owner(code), Some(user_id));
    // the code is still good afterwards
    assert_eq!(confirm_account(&mut store, &VerificationInfo { code }, true), Ok(user_id));
}

#[test]
fn confirmation_touches_only_its_own_account() {
    let mut store = Store::new();
    let (ana, ana_code) = register(&mut store, "ana", "Abc123!@");
    let (bia, bia_code) = register(&mut store, "bia", "Abc123!@");
    confirm_account(&mut store, &VerificationInfo { code: ana_code }, true).unwrap();
    assert_eq!(store.find_user(ana).unwrap().status, AccountStatus::CONFIRMED);
    assert_eq!(store.find_user(bia).unwrap().status, AccountStatus::PENDING);
    assert_eq!(store.code_owner(bia_code), Some(bia));
    assert_eq!(store.user_count(), 2);
}

#[test]
fn session_resolves_as_pending_then_authenticated() {
    let mut store = Store::new();
    let (user_id, code) = register(&mut store, "ana", "Abc123!@");
    let token = session_token(user_id);
    assert_eq!(LocalUser::from_request(Some(&token), &store), LocalUser::Pending);
    confirm_account(&mut store, &VerificationInfo { code }, true).unwrap();
    let seed = store.find_user(user_id).unwrap().avatar_seed;
    assert_eq!(
        LocalUser::from_request(Some(&token), &store),
        LocalUser::Authenticated { id: user_id, nickname: "ana".to_string(), avatar_seed: seed }
    );
}

#[test]
fn confirmed_account_logs_in_with_its_password() {
    let mut store = Store::new();
    let (user_id, code) = register(&mut store, "ana", "Abc123!@");
    confirm_account(&mut store, &VerificationInfo { code }, true).unwrap();
    assert_eq!(login_user(&store, &login("ana", "Abc123!@")), Ok(user_id));
}

#[test]
fn wrong_password_and_unknown_nickname_look_the_same() {
    let mut store = Store::new();
    let (_, code) = register(&mut store, "ana", "Abc123!@");
    confirm_account(&mut store, &VerificationInfo { code }, true).unwrap();
    assert_eq!(
        login_user(&store, &login("ana", "Abc123!#")),
        Err(LoginError::InvalidCredentials)
    );
    assert_eq!(
        login_user(&store, &login("bia", "Abc123!@")),
        Err(LoginError::InvalidCredentials)
    );
}

#[test]
fn pending_account_cannot_log_in() {
    let mut store = Store::new();
    register(&mut store, "ana", "Abc123!@");
    assert_eq!(
        login_user(&store, &login("ana", "Abc123!@")),
        Err(LoginError::InvalidCredentials)
    );
}

#[test]
fn disabled_account_cannot_log_in() {
    let mut store = Store::new();
    let (user_id, _) = register(&mut store, "ana", "Abc123!@");
    assert!(store.set_status(user_id, AccountStatus::DISABLED));
    assert_eq!(
        login_user(&store, &login("ana", "Abc123!@")),
        Err(LoginError::InvalidCredentials)
    );
}

#[test]
fn unreadable_credential_is_an_internal_error() {
    let mut store = Store::new();
    let (user_id, code) = register(&mut store, "ana", "Abc123!@");
    confirm_account(&mut store, &VerificationInfo { code }, true).unwrap();
    assert!(store.set_credential(user_id, "garbage".to_string()));
    assert_eq!(login_user(&store, &login("ana", "Abc123!@")), Err(LoginError::InternalError));
}

#[test]
fn confirmation_does_not_bring_back_a_disabled_account() {
    let mut store = Store::new();
    let (user_id, code) = register(&mut store, "ana", "Abc123!@");
    assert!(store.set_status(user_id, AccountStatus::DISABLED));
    assert_eq!(confirm_account(&mut store, &VerificationInfo { code }, true), Ok(user_id));
    assert_eq!(store.find_user(user_id).unwrap().status, AccountStatus::DISABLED);
    assert_eq!(store.code_owner(code), None);
}

#[test]
fn confirmation_leaves_a_confirmed_account_confirmed() {
    let mut store = Store::new();
    let (user_id, _) = register(&mut store, "ana", "Abc123!@");
    assert!(store.set_status(user_id, AccountStatus::CONFIRMED));
    assert!(!store.confirm_user(user_id));
    assert_eq!(store.find_user(user_id).unwrap().status, AccountStatus::CONFIRMED);
}

#[test]
fn confirm_user_says_whether_it_confirmed() {
    let mut store = Store::new();
    let (user_id, _) = register(&mut store, "ana", "Abc123!@");
    assert!(!store.confirm_user(user_id.wrapping_add(1)));
    assert!(store.confirm_user(user_id));
    assert!(!store.confirm_user(user_id));
    assert_eq!(store.find_user(user_id).unwrap().status, AccountStatus::CONFIRMED);
}

#[test]
fn credential_naming_too_high_parallelism_logs_nobody_in() {
    let mut store = Store::new();
    let (user_id, code) = register(&mut store, "ana", "Abc123!@");
    confirm_account(&mut store, &VerificationInfo { code }, true).unwrap();
    let crafted = "$argon2id$v=19$m=8,t=1,p=536870912$c29tZXNhbHQ$aGFzaGhhc2hoYXNo";
    assert!(store.set_credential(user_id, crafted.to_string()));
    assert_eq!(
        login_user(&store, &login("ana", "Abc123!@")),
        Err(LoginError::InvalidCredentials)
    );
}
