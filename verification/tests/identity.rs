use coisando_coisas::auth::{delete_account, UserRegisterForm};
use coisando_coisas::ids::session_token;
use coisando_coisas::model::User;
use coisando_coisas::store::Store;
use coisando_coisas::{AccountStatus, LocalUser};

fn user(id: u128, nickname: &str, status: AccountStatus) -> User {
    User {
        id,
        nickname: nickname.to_string(),
        email: format!("{}@unb.br", nickname),
        hashed_password: "credential".to_string(),
        avatar_seed: id + 1000,
        status,
        created_at: 0,
    }
}

fn store_with_three() -> Store {
    let mut store = Store::new();
    store.insert_user(user(1, "ana", AccountStatus::PENDING)).unwrap();
    store.insert_user(user(2, "bia", AccountStatus::CONFIRMED)).unwrap();
    store.insert_user(user(3, "caio", AccountStatus::DISABLED)).unwrap();
    store
}

#[test]
fn no_token_is_anonymous() {
    assert_eq!(LocalUser::from_request(None, &store_with_three()), LocalUser::Anonymous);
}

#[test]
fn token_that_spells_no_id_is_anonymous() {
    let store = store_with_three();
    assert_eq!(LocalUser::from_request(Some(""), &store), LocalUser::Anonymous);
    assert_eq!(LocalUser::from_request(Some("ana"), &store), LocalUser::Anonymous);
    assert_eq!(LocalUser::from_request(Some("2"), &store), LocalUser::Anonymous);
}

#[test]
fn token_for_no_account_is_anonymous() {
    let store = store_with_three();
    assert_eq!(LocalUser::from_request(Some(&session_token(4)), &store), LocalUser::Anonymous);
}

#[test]
fn token_for_pending_account_is_pending() {
    let store = store_with_three();
    assert_eq!(LocalUser::from_request(Some(&session_token(1)), &store), LocalUser::Pending);
}

#[test]
fn token_for_confirmed_account_is_authenticated() {
    let store = store_with_three();
    assert_eq!(
        LocalUser::from_request(Some(&session_token(2)), &store),
        LocalUser::Authenticated { id: 2, nickname: "bia".to_string(), avatar_seed: 1002 }
    );
}

#[test]
fn token_in_hyphenated_form_resolves_too() {
    let store = store_with_three();
    assert_eq!(
        LocalUser::from_request(Some("00000000-0000-0000-0000-000000000002"), &store),
        LocalUser::Authenticated { id: 2, nickname: "bia".to_string(), avatar_seed: 1002 }
    );
}

#[test]
fn any_status_but_pending_is_authenticated() {
    let store = store_with_three();
    assert_eq!(
        LocalUser::from_request(Some(&session_token(3)), &store),
        LocalUser::Authenticated { id: 3, nickname: "caio".to_string(), avatar_seed: 1003 }
    );
}

#[test]
fn from_row_classifies_by_status() {
    assert_eq!(LocalUser::from_row(None), LocalUser::Anonymous);
    assert_eq!(
        LocalUser::from_row(Some(&user(1, "ana", AccountStatus::PENDING))),
        LocalUser::Pending
    );
    assert_eq!(
        LocalUser::from_row(Some(&user(2, "bia", AccountStatus::CONFIRMED))),
        LocalUser::Authenticated { id: 2, nickname: "bia".to_string(), avatar_seed: 1002 }
    );
}

#[test]
fn authenticated_id_is_there_for_authenticated_only() {
    assert_eq!(LocalUser::Anonymous.authenticated_id(), None);
    assert_eq!(LocalUser::Pending.authenticated_id(), None);
    let who = LocalUser::Authenticated { id: 9, nickname: "x".to_string(), avatar_seed: 1 };
    assert_eq!(who.authenticated_id(), Some(9));
}

#[test]
fn deleted_account_resolves_to_nobody() {
    let mut store = store_with_three();
    let token = session_token(2);
    let who = LocalUser::from_request(Some(&token), &store);
    assert_eq!(delete_account(&mut store, &who), Ok(()));
    assert_eq!(LocalUser::from_request(Some(&token), &store), LocalUser::Anonymous);
    assert_eq!(store.user_count(), 2);
}

#[test]
fn register_form_is_plain_data() {
    let form = UserRegisterForm {
        nickname: "ana".to_string(),
        email: "ana@unb.br".to_string(),
        password: "Abc123!@".to_string(),
    };
    assert_eq!(form.clone(), form);
}
