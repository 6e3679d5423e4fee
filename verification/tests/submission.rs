use coisando_coisas::index::{
    get_listing_images, view_attachment, PaginationQuery, ViewAttachmentError,
    DEFAULT_PAGE_SIZE,
};
use coisando_coisas::model::{Attachment, User};
use coisando_coisas::store::Store;
use coisando_coisas::submit::{
    check_submission, create_listing, object_key, record_upload, record_uploads, submit_item,
    AttachmentOutcome, ItemForm, SkipReason, Submission, SubmitError, Transfer, Upload,
};
use coisando_coisas::{AccountStatus, Campus, LocalUser, Type};

fn user(id: u128, nickname: &str, status: AccountStatus) -> User {
    User {
        id,
        nickname: nickname.to_string(),
        email: format!("{}@unb.br", nickname),
        hashed_password: "credential".to_string(),
        avatar_seed: 0,
        status,
        created_at: 0,
    }
}

fn store_with_ana() -> Store {
    let mut store = Store::new();
    store.insert_user(user(1, "ana", AccountStatus::CONFIRMED)).unwrap();
    store
}

fn ana() -> LocalUser {
    LocalUser::Authenticated { id: 1, nickname: "ana".to_string(), avatar_seed: 0 }
}

fn form(listing_type: &str, campus: &str) -> ItemForm {
    ItemForm {
        title: "Bicicleta".to_string(),
        description: "Aro 26, pouco uso".to_string(),
        listing_type: listing_type.to_string(),
        campus: campus.to_string(),
    }
}

#[test]
fn pending_and_anonymous_are_refused_with_different_errors() {
    let mut store = store_with_ana();
    let pending = submit_item(&mut store, &LocalUser::Pending, &form("Troca", "Gama"), 1, 0);
    let anonymous = submit_item(&mut store, &LocalUser::Anonymous, &form("Troca", "Gama"), 1, 0);
    assert_eq!(pending, Err(SubmitError::Forbidden));
    assert_eq!(anonymous, Err(SubmitError::Unauthorized));
    assert_ne!(pending, anonymous);
    assert_eq!(store.listing_count(), 0);
}

#[test]
fn submission_without_files_creates_no_listing() {
    let mut store = store_with_ana();
    assert_eq!(
        submit_item(&mut store, &ana(), &form("Troca", "Gama"), 0, 0),
        Err(SubmitError::NoImages)
    );
    assert_eq!(store.listing_count(), 0);
}

#[test]
fn missing_files_are_judged_before_kind_and_campus() {
    assert_eq!(check_submission(&ana(), &form("?", "?"), 0), Err(SubmitError::NoImages));
    assert_eq!(check_submission(&ana(), &form("?", "?"), 1), Err(SubmitError::InvalidType));
    assert_eq!(check_submission(&ana(), &form("Troca", "?"), 1), Err(SubmitError::InvalidCampus));
    assert_eq!(
        check_submission(&LocalUser::Anonymous, &form("?", "?"), 0),
        Err(SubmitError::Unauthorized)
    );
}

#[test]
fn unknown_kind_or_campus_fails_the_submission() {
    let mut store = store_with_ana();
    assert_eq!(
        submit_item(&mut store, &ana(), &form("Venda", "Gama"), 1, 0),
        Err(SubmitError::InvalidType)
    );
    assert_eq!(
        submit_item(&mut store, &ana(), &form("Troca", "Asa Norte"), 1, 0),
        Err(SubmitError::InvalidCampus)
    );
    assert_eq!(
        submit_item(&mut store, &ana(), &form("EXCHANGE", "GAMA"), 1, 0),
        Err(SubmitError::InvalidType)
    );
    assert_eq!(store.listing_count(), 0);
}

#[test]
fn checked_submission_says_who_what_and_where() {
    assert_eq!(
        check_submission(&ana(), &form("Empréstimo", "Ceilândia"), 2),
        Ok(Submission { creator_id: 1, type_: Type::Loan, campus: Campus::Ceilandia })
    );
}

#[test]
fn accepted_submission_writes_one_listing() {
    let mut store = store_with_ana();
    let id = submit_item(&mut store, &ana(), &form("Doação", "Darcy Ribeiro"), 2, 1234)
        .expect("the submission is accepted");
    assert_eq!(store.listing_count(), 1);
    let row = store.find_listing(id).expect("the listing is there");
    assert_eq!(row.title, "Bicicleta");
    assert_eq!(row.description, "Aro 26, pouco uso");
    assert_eq!(row.type_, Type::Donation);
    assert_eq!(row.campus, Campus::DarcyRibeiro);
    assert_eq!(row.creator_id, 1);
    assert_eq!(row.created_at, 1234);
    assert_eq!(store.attachment_count(), 0);
}

#[test]
fn listing_under_an_id_in_use_is_an_internal_error() {
    let mut store = store_with_ana();
    assert_eq!(create_listing(&mut store, &ana(), &form("Troca", "Gama"), 1, 50, 0), Ok(50));
    assert_eq!(
        create_listing(&mut store, &ana(), &form("Troca", "Gama"), 1, 50, 0),
        Err(SubmitError::InternalError)
    );
    assert_eq!(store.listing_count(), 1);
}

#[test]
fn listing_for_a_creator_without_account_is_an_internal_error() {
    let mut store = store_with_ana();
    let ghost = LocalUser::Authenticated { id: 2, nickname: "bia".to_string(), avatar_seed: 0 };
    assert_eq!(
        create_listing(&mut store, &ghost, &form("Troca", "Gama"), 1, 50, 0),
        Err(SubmitError::InternalError)
    );
    assert_eq!(store.listing_count(), 0);
}

#[test]
fn failed_second_upload_leaves_one_listing_and_one_attachment() {
    let mut store = store_with_ana();
    let listing = submit_item(&mut store, &ana(), &form("Pedido", "Planaltina"), 2, 0)
        .expect("the submission is reported successful");
    let uploads = vec![
        Upload { attachment_id: 60, transfer: Transfer::Uploaded },
        Upload { attachment_id: 61, transfer: Transfer::UploadFailed },
    ];
    let log = record_uploads(&mut store, listing, &uploads);
    assert_eq!(
        log,
        vec![AttachmentOutcome::Stored, AttachmentOutcome::Skipped(SkipReason::UploadFailed)]
    );
    assert_eq!(store.listing_count(), 1);
    assert_eq!(store.attachment_count(), 1);
    assert_eq!(store.attachments_of(listing), vec![Attachment { id: 60, listing_id: listing }]);
}

#[test]
fn a_skipped_file_does_not_stop_the_ones_after_it() {
    let mut store = store_with_ana();
    create_listing(&mut store, &ana(), &form("Troca", "Gama"), 3, 50, 0).unwrap();
    let uploads = vec![
        Upload { attachment_id: 60, transfer: Transfer::PersistFailed },
        Upload { attachment_id: 61, transfer: Transfer::Uploaded },
        Upload { attachment_id: 61, transfer: Transfer::Uploaded },
        Upload { attachment_id: 62, transfer: Transfer::UploadFailed },
        Upload { attachment_id: 63, transfer: Transfer::Uploaded },
    ];
    let log = record_uploads(&mut store, 50, &uploads);
    assert_eq!(
        log,
        vec![
            AttachmentOutcome::Skipped(SkipReason::PersistFailed),
            AttachmentOutcome::Stored,
            AttachmentOutcome::Skipped(SkipReason::InsertFailed),
            AttachmentOutcome::Skipped(SkipReason::UploadFailed),
            AttachmentOutcome::Stored,
        ]
    );
    assert_eq!(
        store.attachments_of(50),
        vec![Attachment { id: 61, listing_id: 50 }, Attachment { id: 63, listing_id: 50 }]
    );
}

#[test]
fn every_file_may_fail_and_the_listing_stays() {
    let mut store = store_with_ana();
    create_listing(&mut store, &ana(), &form("Troca", "Gama"), 2, 50, 0).unwrap();
    let uploads = vec![
        Upload { attachment_id: 60, transfer: Transfer::UploadFailed },
        Upload { attachment_id: 61, transfer: Transfer::PersistFailed },
    ];
    let log = record_uploads(&mut store, 50, &uploads);
    assert_eq!(log.len(), 2);
    assert_eq!(store.attachment_count(), 0);
    assert_eq!(store.listing_count(), 1);
}

#[test]
fn no_files_give_an_empty_log() {
    let mut store = store_with_ana();
    create_listing(&mut store, &ana(), &form("Troca", "Gama"), 1, 50, 0).unwrap();
    assert_eq!(record_uploads(&mut store, 50, &vec![]), vec![]);
    assert_eq!(store.attachment_count(), 0);
}

#[test]
fn upload_for_a_missing_listing_is_passed_over() {
    let mut store = store_with_ana();
    let upload = Upload { attachment_id: 60, transfer: Transfer::Uploaded };
    assert_eq!(
        record_upload(&mut store, 50, &upload),
        AttachmentOutcome::Skipped(SkipReason::InsertFailed)
    );
    assert_eq!(store.attachment_count(), 0);
}

#[test]
fn attachment_of_unconfirmed_owner_is_not_shown() {
    let mut store = Store::new();
    store.insert_user(user(1, "ana", AccountStatus::PENDING)).unwrap();
    store.insert_user(user(2, "bia", AccountStatus::DISABLED)).unwrap();
    store.insert_user(user(3, "caio", AccountStatus::CONFIRMED)).unwrap();
    // the objects are assumed to exist; it is the owner's status that decides
    assert_eq!(view_attachment(&store, 1, 60), Err(ViewAttachmentError::InvalidUser));
    assert_eq!(view_attachment(&store, 2, 60), Err(ViewAttachmentError::InvalidUser));
    assert_eq!(view_attachment(&store, 4, 60), Err(ViewAttachmentError::InvalidUser));
    let request = view_attachment(&store, 3, 60).expect("a confirmed owner is shown");
    assert_eq!(request.key, object_key(3, 60));
    assert_eq!(request.bucket, "coisandocoisas");
    assert_eq!(request.expires_in_seconds, 120);
}

#[test]
fn attachment_is_blocked_once_its_owner_is_disabled() {
    let mut store = store_with_ana();
    assert!(view_attachment(&store, 1, 60).is_ok());
    store.set_status(1, AccountStatus::DISABLED);
    assert_eq!(view_attachment(&store, 1, 60), Err(ViewAttachmentError::InvalidUser));
}

#[test]
fn listing_images_are_paths_in_attachment_order() {
    let mut store = store_with_ana();
    create_listing(&mut store, &ana(), &form("Troca", "Gama"), 2, 50, 0).unwrap();
    create_listing(&mut store, &ana(), &form("Troca", "Gama"), 1, 51, 0).unwrap();
    store.insert_attachment(Attachment { id: 2, listing_id: 50 }).unwrap();
    store.insert_attachment(Attachment { id: 3, listing_id: 51 }).unwrap();
    store.insert_attachment(Attachment { id: 1, listing_id: 50 }).unwrap();
    assert_eq!(
        get_listing_images(&store, 50, 1),
        vec![
            "/attachments/00000000-0000-0000-0000-000000000001/00000000-0000-0000-0000-000000000002"
                .to_string(),
            "/attachments/00000000-0000-0000-0000-000000000001/00000000-0000-0000-0000-000000000001"
                .to_string(),
        ]
    );
    assert_eq!(get_listing_images(&store, 52, 1), Vec::<String>::new());
}

#[test]
fn pagination_defaults_to_the_first_ten() {
    let none = PaginationQuery { deslocamento: None, quantidade: None };
    assert_eq!(none.offset(), 0);
    assert_eq!(none.limit(), 10);
    assert_eq!(DEFAULT_PAGE_SIZE, 10);
    let some = PaginationQuery { deslocamento: Some(20), quantidade: Some(5) };
    assert_eq!(some.offset(), 20);
    assert_eq!(some.limit(), 5);
    let zero = PaginationQuery { deslocamento: Some(0), quantidade: Some(0) };
    assert_eq!(zero.limit(), 0);
}

#[test]
fn first_listing_of_an_account_goes_through() {
    for _ in 0..20 {
        let mut store = store_with_ana();
        let id = submit_item(&mut store, &ana(), &form("Troca", "Gama"), 1, 0);
        assert!(id.is_ok());
        assert_eq!(store.listing_count(), 1);
    }
}

#[test]
fn row_refused_elsewhere_leaves_no_row_here() {
    let mut store = store_with_ana();
    create_listing(&mut store, &ana(), &form("Troca", "Gama"), 2, 50, 0).unwrap();
    let uploads = vec![
        Upload { attachment_id: 60, transfer: Transfer::RowRefused },
        Upload { attachment_id: 61, transfer: Transfer::Uploaded },
    ];
    let log = record_uploads(&mut store, 50, &uploads);
    assert_eq!(
        log,
        vec![AttachmentOutcome::Skipped(SkipReason::InsertFailed), AttachmentOutcome::Stored]
    );
    assert_eq!(store.attachments_of(50), vec![Attachment { id: 61, listing_id: 50 }]);
}
