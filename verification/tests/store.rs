use coisando_coisas::model::{Attachment, ConfirmationCode, Listing, StoreError, User};
use coisando_coisas::store::Store;
use coisando_coisas::{AccountStatus, Campus, Type};

fn user(id: u128, nickname: &str, email: &str) -> User {
    User {
        id,
        nickname: nickname.to_string(),
        email: email.to_string(),
        hashed_password: "credential".to_string(),
        avatar_seed: 0,
        status: AccountStatus::PENDING,
        created_at: 0,
    }
}

fn listing(id: u128, creator_id: u128) -> Listing {
    Listing {
        id,
        title: "Bicicleta".to_string(),
        description: "Aro 26".to_string(),
        type_: Type::Donation,
        campus: Campus::DarcyRibeiro,
        creator_id,
        created_at: 0,
    }
}

#[test]
fn new_store_is_empty() {
    let store = Store::new();
    assert_eq!(store.user_count(), 0);
    assert_eq!(store.code_count(), 0);
    assert_eq!(store.listing_count(), 0);
    assert_eq!(store.attachment_count(), 0);
    assert!(store.find_user(1).is_none());
    assert!(!store.nickname_in_use("ana"));
}

#[test]
fn user_constraints_are_judged_nickname_then_email_then_id() {
    let mut store = Store::new();
    assert_eq!(store.insert_user(user(1, "ana", "ana@unb.br")), Ok(()));
    assert_eq!(
        store.insert_user(user(1, "ana", "ana@unb.br")),
        Err(StoreError::DuplicateNickname)
    );
    assert_eq!(store.insert_user(user(1, "bia", "ana@unb.br")), Err(StoreError::DuplicateEmail));
    assert_eq!(store.insert_user(user(1, "bia", "bia@unb.br")), Err(StoreError::DuplicateUserId));
    assert_eq!(store.insert_user(user(2, "bia", "bia@unb.br")), Ok(()));
    assert_eq!(store.user_count(), 2);
}

#[test]
fn users_are_found_by_id_and_by_nickname() {
    let mut store = Store::new();
    store.insert_user(user(1, "ana", "ana@unb.br")).unwrap();
    store.insert_user(user(2, "bia", "bia@unb.br")).unwrap();
    assert_eq!(store.find_user(2).unwrap().nickname, "bia");
    assert_eq!(store.find_user_by_nickname("ana").unwrap().id, 1);
    assert!(store.find_user_by_nickname("caio").is_none());
    assert!(store.email_in_use("bia@unb.br"));
    assert!(!store.email_in_use("caio@unb.br"));
}

#[test]
fn code_needs_a_free_value_and_an_account() {
    let mut store = Store::new();
    store.insert_user(user(1, "ana", "ana@unb.br")).unwrap();
    assert_eq!(store.insert_code(ConfirmationCode { code: 7, user_id: 1 }), Ok(()));
    assert_eq!(
        store.insert_code(ConfirmationCode { code: 7, user_id: 1 }),
        Err(StoreError::DuplicateCode)
    );
    assert_eq!(
        store.insert_code(ConfirmationCode { code: 8, user_id: 2 }),
        Err(StoreError::NoSuchUser)
    );
    assert_eq!(store.code_count(), 1);
    assert_eq!(store.code_owner(7), Some(1));
    assert_eq!(store.code_owner(8), None);
}

#[test]
fn deleting_a_code_says_whether_it_was_there() {
    let mut store = Store::new();
    store.insert_user(user(1, "ana", "ana@unb.br")).unwrap();
    store.insert_code(ConfirmationCode { code: 7, user_id: 1 }).unwrap();
    store.insert_code(ConfirmationCode { code: 8, user_id: 1 }).unwrap();
    store.insert_code(ConfirmationCode { code: 9, user_id: 1 }).unwrap();
    assert!(store.delete_code(8));
    assert!(!store.delete_code(8));
    assert_eq!(
        store.codes_of(1),
        vec![ConfirmationCode { code: 7, user_id: 1 }, ConfirmationCode { code: 9, user_id: 1 }]
    );
}

#[test]
fn updates_say_whether_the_account_is_there() {
    let mut store = Store::new();
    store.insert_user(user(1, "ana", "ana@unb.br")).unwrap();
    assert!(store.set_status(1, AccountStatus::CONFIRMED));
    assert!(!store.set_status(2, AccountStatus::CONFIRMED));
    assert!(store.set_avatar_seed(1, 5));
    assert!(!store.set_avatar_seed(2, 5));
    assert!(store.set_credential(1, "other".to_string()));
    assert!(!store.set_credential(2, "other".to_string()));
    let row = store.find_user(1).unwrap();
    assert_eq!(row.status, AccountStatus::CONFIRMED);
    assert_eq!(row.avatar_seed, 5);
    assert_eq!(row.hashed_password, "other");
    assert_eq!(row.nickname, "ana");
    assert_eq!(store.user_count(), 1);
}

#[test]
fn updates_keep_the_order_of_rows() {
    let mut store = Store::new();
    store.insert_user(user(1, "ana", "ana@unb.br")).unwrap();
    store.insert_user(user(2, "bia", "bia@unb.br")).unwrap();
    store.insert_user(user(3, "caio", "caio@unb.br")).unwrap();
    assert!(store.set_status(2, AccountStatus::CONFIRMED));
    assert_eq!(store.find_user(1).unwrap().status, AccountStatus::PENDING);
    assert_eq!(store.find_user(2).unwrap().status, AccountStatus::CONFIRMED);
    assert_eq!(store.find_user(3).unwrap().status, AccountStatus::PENDING);
}

#[test]
fn nickname_of_another_account_is_refused_but_own_is_not() {
    let mut store = Store::new();
    store.insert_user(user(1, "ana", "ana@unb.br")).unwrap();
    store.insert_user(user(2, "bia", "bia@unb.br")).unwrap();
    assert_eq!(store.set_nickname(1, "bia".to_string()), Err(StoreError::DuplicateNickname));
    assert_eq!(store.set_nickname(1, "ana".to_string()), Ok(true));
    assert_eq!(store.set_nickname(1, "aninha".to_string()), Ok(true));
    assert_eq!(store.set_nickname(3, "livre".to_string()), Ok(false));
    assert_eq!(store.set_nickname(3, "bia".to_string()), Err(StoreError::DuplicateNickname));
    assert_eq!(store.find_user(1).unwrap().nickname, "aninha");
}

#[test]
fn deleting_a_user_says_whether_it_was_there() {
    let mut store = Store::new();
    store.insert_user(user(1, "ana", "ana@unb.br")).unwrap();
    store.insert_user(user(2, "bia", "bia@unb.br")).unwrap();
    assert!(store.delete_user(1));
    assert!(!store.delete_user(1));
    assert_eq!(store.user_count(), 1);
    assert_eq!(store.find_user(2).unwrap().nickname, "bia");
}

#[test]
fn listing_needs_a_free_id_and_a_creator() {
    let mut store = Store::new();
    store.insert_user(user(1, "ana", "ana@unb.br")).unwrap();
    assert_eq!(store.insert_listing(listing(50, 1)), Ok(()));
    assert_eq!(store.insert_listing(listing(50, 1)), Err(StoreError::DuplicateListingId));
    assert_eq!(store.insert_listing(listing(51, 2)), Err(StoreError::NoSuchUser));
    assert_eq!(store.listing_count(), 1);
    assert_eq!(store.find_listing(50).unwrap().title, "Bicicleta");
    assert!(store.find_listing(51).is_none());
}

#[test]
fn attachment_needs_a_free_id_and_a_listing() {
    let mut store = Store::new();
    store.insert_user(user(1, "ana", "ana@unb.br")).unwrap();
    store.insert_listing(listing(50, 1)).unwrap();
    assert_eq!(store.insert_attachment(Attachment { id: 60, listing_id: 50 }), Ok(()));
    assert_eq!(
        store.insert_attachment(Attachment { id: 60, listing_id: 50 }),
        Err(StoreError::DuplicateAttachmentId)
    );
    assert_eq!(
        store.insert_attachment(Attachment { id: 61, listing_id: 51 }),
        Err(StoreError::NoSuchListing)
    );
    assert_eq!(store.attachment_count(), 1);
}

#[test]
fn attachments_are_listed_by_listing_in_insertion_order() {
    let mut store = Store::new();
    store.insert_user(user(1, "ana", "ana@unb.br")).unwrap();
    store.insert_listing(listing(50, 1)).unwrap();
    store.insert_listing(listing(51, 1)).unwrap();
    store.insert_attachment(Attachment { id: 62, listing_id: 50 }).unwrap();
    store.insert_attachment(Attachment { id: 61, listing_id: 51 }).unwrap();
    store.insert_attachment(Attachment { id: 60, listing_id: 50 }).unwrap();
    assert_eq!(
        store.attachments_of(50),
        vec![Attachment { id: 62, listing_id: 50 }, Attachment { id: 60, listing_id: 50 }]
    );
    assert_eq!(store.attachments_of(52), vec![]);
}
