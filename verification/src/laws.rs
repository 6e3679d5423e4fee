use vstd::prelude::*;
use crate::auth::{
    authenticated_verdict, confirmation_verdict, login_verdict, new_user_row,
    registration_verdict, status_after_confirmation, with_confirmation, with_deletion,
    with_new_avatar, with_registration, write_verdict, LoginError, NewAccountIds, SettingsError,
    UserRegisterError, UserVerificationError,
};
use crate::credential::credential_check;
use crate::domain::AccountStatus;
use crate::identity::{resolve, LocalUserView};
use crate::ids::uuid_parse;
use crate::index::owner_confirmed;
use crate::model::{
    lemma_with_attachment_wf, lemma_with_code_wf, lemma_with_confirmed, lemma_with_user_wf,
    lemma_without_code_wf, lemma_without_user_wf, Attachment, ConfirmationCode, StoreView,
    UserView,
};
use crate::seq_facts::{lemma_filter_all, lemma_filter_none, lemma_remove_is_filter};
use crate::submit::{
    after_upload, after_uploads, creation_verdict, submission_verdict, upload_outcome,
    upload_outcomes, AttachmentOutcome, SkipReason, SubmitError, Transfer, Upload,
};

verus! {

/// Right after a registration has been written, the tables hold the new
/// account with status `PENDING`, exactly one confirmation code is held for
/// it, and that code is the one that was issued.
pub proof fn law_registration_writes_pending_account_and_one_code(
    store: StoreView,
    nickname: Seq<char>,
    email: Seq<char>,
    credential: Seq<char>,
    ids: NewAccountIds,
    now: u64,
)
    requires
        store.wf(),
        write_verdict(store, nickname, email, ids).is_ok(),
    ensures
        ({
            let after = with_registration(store, nickname, email, credential, ids, now);
            &&& after.wf()
            &&& after.user(ids.user_id) == Some(
                new_user_row(nickname, email, credential, ids, now),
            )
            &&& after.user(ids.user_id).unwrap().status == AccountStatus::PENDING
            &&& after.codes_of(ids.user_id) == seq![
                ConfirmationCode { code: ids.code, user_id: ids.user_id },
            ]
            &&& after.code_owner(ids.code) == Some(ids.user_id)
            &&& after.users.len() == store.users.len() + 1
            &&& after.codes.len() == store.codes.len() + 1
        }),
{
    let row = new_user_row(nickname, email, credential, ids, now);
    let code = ConfirmationCode { code: ids.code, user_id: ids.user_id };
    let middle = store.with_user(row);
    let after = with_registration(store, nickname, email, credential, ids, now);
    lemma_with_user_wf(store, row);
    assert(middle.users[middle.users.len() - 1].id == ids.user_id);
    lemma_with_code_wf(middle, code);
    assert(after.users[after.users.len() - 1] == row);
    assert(after.has_user(ids.user_id));
    assert(after.codes[after.codes.len() - 1] == code);
    assert(after.has_code(ids.code));
    let keep = |c: ConfirmationCode| c.user_id == ids.user_id;
    assert forall|i: int| 0 <= i < store.codes.len() implies !keep(#[trigger] store.codes[i]) by {
        assert(store.has_user(store.codes[i].user_id));
    }
    lemma_filter_none(store.codes, keep);
    assert(after.codes.drop_last() =~= store.codes);
    assert(after.codes.filter(keep) =~= seq![code]) by {
        reveal(Seq::filter);
    }
}

/// A registration whose confirmation notice did not go out leaves no row
/// behind: taking the new account out again gives back the tables as they
/// were before, and there is no account under the new id.
pub proof fn law_undelivered_registration_leaves_no_row(
    store: StoreView,
    nickname: Seq<char>,
    email: Seq<char>,
    credential: Seq<char>,
    ids: NewAccountIds,
    now: u64,
)
    requires
        store.wf(),
        write_verdict(store, nickname, email, ids).is_ok(),
    ensures
        with_registration(store, nickname, email, credential, ids, now).without_user(ids.user_id)
            == store,
        !store.has_user(ids.user_id),
{
    let row = new_user_row(nickname, email, credential, ids, now);
    let code = ConfirmationCode { code: ids.code, user_id: ids.user_id };
    let after = with_registration(store, nickname, email, credential, ids, now);
    let undone = after.without_user(ids.user_id);
    let keep_user = |u: UserView| u.id != ids.user_id;
    let keep_code = |c: ConfirmationCode| c.user_id != ids.user_id;
    lemma_filter_all(store.users, keep_user);
    assert forall|i: int| 0 <= i < store.codes.len() implies keep_code(#[trigger] store.codes[i]) by {
        assert(store.has_user(store.codes[i].user_id));
    }
    lemma_filter_all(store.codes, keep_code);
    assert(after.users.drop_last() =~= store.users);
    assert(after.codes.drop_last() =~= store.codes);
    assert(after.users.filter(keep_user) == store.users) by {
        reveal(Seq::filter);
    }
    assert(after.codes.filter(keep_code) == store.codes) by {
        reveal(Seq::filter);
    }
    assert(undone.users =~= store.users);
    assert(undone.codes =~= store.codes);
}

/// A confirmation code is good for one redemption. Once it has been
/// redeemed the code is gone, its account is confirmed where it was pending
/// and keeps its status where it was not, and redeeming the code again fails
/// as an invalid code, whether or not a session could be made.
pub proof fn law_confirmation_code_is_single_use(
    store: StoreView,
    code: u128,
    session_created: bool,
)
    requires
        store.wf(),
        store.has_code(code),
    ensures
        ({
            let after = with_confirmation(store, code);
            let owner = store.code_owner(code).unwrap();
            &&& confirmation_verdict(store, code, true) == Ok::<u128, UserVerificationError>(owner)
            &&& after.wf()
            &&& !after.has_code(code)
            &&& after.codes.len() == store.codes.len() - 1
            &&& store.user(owner) is Some
            &&& after.user(owner) == Some(
                UserView {
                    status: status_after_confirmation(store.user(owner).unwrap().status),
                    ..store.user(owner).unwrap()
                },
            )
            &&& store.user(owner).unwrap().status == AccountStatus::PENDING ==> after.user(
                owner,
            ).unwrap().status == AccountStatus::CONFIRMED
            &&& confirmation_verdict(after, code, session_created) == Err::<
                u128,
                UserVerificationError,
            >(UserVerificationError::CodeInvalid)
        }),
{
    let owner = store.code_owner(code).unwrap();
    let gone = store.without_code(code);
    let after = with_confirmation(store, code);
    lemma_without_code_wf(store, code);
    lemma_with_confirmed(gone, owner);
    let at = store.code_index(code);
    assert(store.has_user(store.codes[at].user_id));
    let k = store.user_index(owner);
    assert(after.users[k].id == owner);
    assert(after.has_user(owner));
    let j = after.user_index(owner);
    assert(j == k) by {
        if j != k {
            assert(after.users[j].id != after.users[k].id);
        }
    }
    let keep = |c: ConfirmationCode| c.code != code;
    lemma_remove_is_filter(store.codes, at, keep);
}

/// The only change of status that a redemption makes is from pending to
/// confirmed, and only of the account that the code was issued to: every
/// other account, and an account that is not pending, stays as it is.
pub proof fn law_confirmation_only_confirms(store: StoreView, code: u128, i: int)
    requires
        store.wf(),
        0 <= i < store.users.len(),
    ensures
        ({
            let after = with_confirmation(store, code);
            &&& after.users.len() == store.users.len()
            &&& after.users[i] == store.users[i] || (store.code_owner(code) == Some(
                store.users[i].id,
            ) && store.users[i].status == AccountStatus::PENDING && after.users[i] == UserView {
                status: AccountStatus::CONFIRMED,
                ..store.users[i]
            })
            &&& after.users[i].status != store.users[i].status ==> store.code_owner(code) == Some(
                store.users[i].id,
            ) && store.users[i].status == AccountStatus::PENDING && after.users[i].status
                == AccountStatus::CONFIRMED
        }),
{
}

/// Once an account has been registered under a nickname, a second
/// registration under that nickname is refused as a nickname in use,
/// whatever its email and password are; and one under another nickname but
/// the same email is refused as an email in use.
pub proof fn law_second_registration_is_refused(
    store: StoreView,
    nickname: Seq<char>,
    email: Seq<char>,
    credential: Seq<char>,
    ids: NewAccountIds,
    now: u64,
    other_nickname: Seq<char>,
    other_email: Seq<char>,
    other_password: Seq<char>,
)
    requires
        store.wf(),
        write_verdict(store, nickname, email, ids).is_ok(),
    ensures
        ({
            let after = with_registration(store, nickname, email, credential, ids, now);
            &&& registration_verdict(after, nickname, other_email, other_password) == Err::<
                (),
                UserRegisterError,
            >(UserRegisterError::NicknameInUse)
            &&& !after.nickname_taken(other_nickname) ==> registration_verdict(
                after,
                other_nickname,
                email,
                other_password,
            ) == Err::<(), UserRegisterError>(UserRegisterError::EmailInUse)
        }),
{
    let after = with_registration(store, nickname, email, credential, ids, now);
    assert(after.users[after.users.len() - 1] == new_user_row(
        nickname,
        email,
        credential,
        ids,
        now,
    ));
}

/// Of two registrations under one nickname that were both checked against
/// the same tables, at most one can be written: once the first is in, the
/// rows of the second are refused as a nickname in use, whatever its
/// identifiers are. The same holds of two registrations under one email.
pub proof fn law_at_most_one_registration_per_nickname(
    store: StoreView,
    nickname: Seq<char>,
    first_email: Seq<char>,
    first_credential: Seq<char>,
    first_ids: NewAccountIds,
    first_now: u64,
    second_nickname: Seq<char>,
    second_email: Seq<char>,
    second_ids: NewAccountIds,
)
    requires
        store.wf(),
        write_verdict(store, nickname, first_email, first_ids).is_ok(),
    ensures
        ({
            let after = with_registration(
                store,
                nickname,
                first_email,
                first_credential,
                first_ids,
                first_now,
            );
            &&& after.wf()
            &&& write_verdict(after, nickname, second_email, second_ids) == Err::<
                (),
                UserRegisterError,
            >(UserRegisterError::NicknameInUse)
            &&& second_nickname != nickname ==> write_verdict(
                after,
                second_nickname,
                first_email,
                second_ids,
            ).is_err()
        }),
{
    let after = with_registration(
        store,
        nickname,
        first_email,
        first_credential,
        first_ids,
        first_now,
    );
    law_registration_writes_pending_account_and_one_code(
        store,
        nickname,
        first_email,
        first_credential,
        first_ids,
        first_now,
    );
    assert(after.users[after.users.len() - 1] == new_user_row(
        nickname,
        first_email,
        first_credential,
        first_ids,
        first_now,
    ));
}

/// In tables that keep their constraints, no two accounts go by one
/// nickname or were registered with one email.
pub proof fn law_nicknames_and_emails_are_unique(store: StoreView, a: UserView, b: UserView)
    requires
        store.wf(),
        store.users.contains(a),
        store.users.contains(b),
        a.nickname == b.nickname || a.email == b.email || a.id == b.id,
    ensures
        a == b,
{
    let i = choose|i: int| 0 <= i < store.users.len() && store.users[i] == a;
    let j = choose|j: int| 0 <= j < store.users.len() && store.users[j] == b;
    if i != j {
        assert(store.users[i].id != store.users[j].id);
    }
}

/// A submission from an account whose email is not confirmed is refused
/// with an error of its own, which is not the error that a submission from
/// nobody gets; neither writes a listing.
pub proof fn law_pending_and_anonymous_are_refused_apart(
    store: StoreView,
    title: Seq<char>,
    description: Seq<char>,
    listing_type: Seq<char>,
    campus: Seq<char>,
    image_count: nat,
    listing_id: u128,
    now: u64,
)
    ensures
        submission_verdict(LocalUserView::Pending, listing_type, campus, image_count) == Err::<
            crate::submit::Submission,
            SubmitError,
        >(SubmitError::Forbidden),
        submission_verdict(LocalUserView::Anonymous, listing_type, campus, image_count) == Err::<
            crate::submit::Submission,
            SubmitError,
        >(SubmitError::Unauthorized),
        SubmitError::Forbidden != SubmitError::Unauthorized,
        creation_verdict(
            store,
            LocalUserView::Pending,
            title,
            description,
            listing_type,
            campus,
            image_count,
            listing_id,
            now,
        ).is_err(),
        creation_verdict(
            store,
            LocalUserView::Anonymous,
            title,
            description,
            listing_type,
            campus,
            image_count,
            listing_id,
            now,
        ).is_err(),
{
}

/// A submission that comes with no file is refused for that, whatever its
/// kind and campus say, and no listing is written for it.
pub proof fn law_submission_without_files_is_refused(
    store: StoreView,
    id: u128,
    nickname: Seq<char>,
    avatar_seed: u128,
    title: Seq<char>,
    description: Seq<char>,
    listing_type: Seq<char>,
    campus: Seq<char>,
    listing_id: u128,
    now: u64,
)
    ensures
        creation_verdict(
            store,
            LocalUserView::Authenticated { id, nickname, avatar_seed },
            title,
            description,
            listing_type,
            campus,
            0,
            listing_id,
            now,
        ) == Err::<crate::model::ListingView, SubmitError>(SubmitError::NoImages),
{
}

/// How many entries of a log say that a row was written.
pub open spec fn stored_count(log: Seq<AttachmentOutcome>) -> nat
    decreases log.len(),
{
    if log.len() == 0 {
        0
    } else {
        stored_count(log.drop_last()) + if log.last() is Stored {
            1nat
        } else {
            0nat
        }
    }
}

/// Dealing with the files of a submission touches nothing but the
/// attachments: accounts, codes and listings stay as they are, the
/// constraints are kept, the log has one entry for each file, and exactly as
/// many attachment rows are added as the log says were stored, each for an
/// object that is in the object store.
pub proof fn law_uploads_only_add_stored_attachments(
    store: StoreView,
    listing_id: u128,
    uploads: Seq<Upload>,
)
    requires
        store.wf(),
    ensures
        ({
            let after = after_uploads(store, listing_id, uploads);
            let log = upload_outcomes(store, listing_id, uploads);
            &&& after.wf()
            &&& after.users == store.users
            &&& after.codes == store.codes
            &&& after.listings == store.listings
            &&& log.len() == uploads.len()
            &&& after.attachments.len() == store.attachments.len() + stored_count(log)
            &&& after.attachments.subrange(0, store.attachments.len() as int) == store.attachments
            &&& forall|i: int|
                0 <= i < uploads.len() && log[i] is Stored ==> (#[trigger] uploads[i]).transfer
                    == Transfer::Uploaded
            &&& forall|k: int|
                store.attachments.len() <= k < after.attachments.len() ==> (
                #[trigger] after.attachments[k]).listing_id == listing_id
        }),
    decreases uploads.len(),
{
    let after = after_uploads(store, listing_id, uploads);
    let log = upload_outcomes(store, listing_id, uploads);
    if uploads.len() == 0 {
        assert(after.attachments.subrange(0, store.attachments.len() as int)
            =~= store.attachments);
    } else {
        let rest = uploads.drop_last();
        let last = uploads.last();
        law_uploads_only_add_stored_attachments(store, listing_id, rest);
        let middle = after_uploads(store, listing_id, rest);
        let rest_log = upload_outcomes(store, listing_id, rest);
        assert(log.drop_last() =~= rest_log);
        let row = Attachment { id: last.attachment_id, listing_id };
        if upload_outcome(middle, listing_id, last) is Stored {
            lemma_with_attachment_wf(middle, row);
        }
        assert(after.attachments.subrange(0, store.attachments.len() as int)
            =~= middle.attachments.subrange(0, store.attachments.len() as int));
        assert forall|i: int| 0 <= i < uploads.len() && log[i] is Stored implies (
        #[trigger] uploads[i]).transfer == Transfer::Uploaded by {
            if i < rest.len() {
                assert(log[i] == rest_log[i]);
                assert(uploads[i] == rest[i]);
            }
        }
    }
}

/// Where two files come with a submission and the second cannot be sent to
/// the object store, the first gets its attachment row, the second gets
/// none, and the listing stays.
pub proof fn law_failed_second_upload_keeps_the_first(
    store: StoreView,
    listing_id: u128,
    first: u128,
    second: u128,
)
    requires
        store.wf(),
        store.has_listing(listing_id),
        !store.has_attachment(first),
    ensures
        ({
            let uploads = seq![
                Upload { attachment_id: first, transfer: Transfer::Uploaded },
                Upload { attachment_id: second, transfer: Transfer::UploadFailed },
            ];
            &&& upload_outcomes(store, listing_id, uploads) == seq![
                AttachmentOutcome::Stored,
                AttachmentOutcome::Skipped(SkipReason::UploadFailed),
            ]
            &&& after_uploads(store, listing_id, uploads) == store.with_attachment(
                Attachment { id: first, listing_id },
            )
        }),
{
    let one = Upload { attachment_id: first, transfer: Transfer::Uploaded };
    let two = Upload { attachment_id: second, transfer: Transfer::UploadFailed };
    let uploads = seq![one, two];
    let head = seq![one];
    assert(uploads.drop_last() =~= head);
    assert(head.drop_last() =~= Seq::<Upload>::empty());
    assert(uploads.last() == two);
    assert(head.last() == one);
    assert(after_uploads(store, listing_id, Seq::<Upload>::empty()) == store);
    assert(upload_outcomes(store, listing_id, Seq::<Upload>::empty())
        == Seq::<AttachmentOutcome>::empty());
    assert(after_uploads(store, listing_id, head) == after_upload(store, listing_id, one));
    assert(upload_outcomes(store, listing_id, head) =~= seq![AttachmentOutcome::Stored]);
    assert(upload_outcomes(store, listing_id, uploads) =~= seq![
        AttachmentOutcome::Stored,
        AttachmentOutcome::Skipped(SkipReason::UploadFailed),
    ]);
}

/// An attachment is shown only where its owner is there and confirmed: an
/// owner that is pending, disabled or gone blocks the view.
pub proof fn law_unconfirmed_owner_blocks_view(store: StoreView, user_id: u128)
    requires
        store.wf(),
    ensures
        owner_confirmed(store, user_id) <==> exists|i: int|
            0 <= i < store.users.len() && (#[trigger] store.users[i]).id == user_id
                && store.users[i].status == AccountStatus::CONFIRMED,
{
    if store.has_user(user_id) {
        let k = store.user_index(user_id);
        assert forall|i: int|
            0 <= i < store.users.len() && (#[trigger] store.users[i]).id == user_id implies i
            == k by {}
    }
}

/// Deleting an account ends its sessions: a token that names the deleted
/// account resolves to nobody.
pub proof fn law_deleted_account_resolves_to_nobody(
    store: StoreView,
    id: u128,
    nickname: Seq<char>,
    avatar_seed: u128,
    token: Seq<char>,
)
    requires
        store.wf(),
        uuid_parse(token) == Some(id),
    ensures
        resolve(
            Some(token),
            with_deletion(store, LocalUserView::Authenticated { id, nickname, avatar_seed }),
        ) == LocalUserView::Anonymous,
{
    lemma_without_user_wf(store, id);
}

/// A token resolves to an authenticated identity only where it names an
/// account that is there and no longer pending, and then the identity is
/// that account's.
pub proof fn law_resolution_follows_the_account(store: StoreView, token: Option<Seq<char>>)
    requires
        store.wf(),
    ensures
        match resolve(token, store) {
            LocalUserView::Anonymous => token is None || uuid_parse(token.unwrap()) is None
                || !store.has_user(uuid_parse(token.unwrap()).unwrap()),
            LocalUserView::Pending => token is Some && uuid_parse(token.unwrap()) is Some
                && store.user(uuid_parse(token.unwrap()).unwrap()).unwrap().status
                == AccountStatus::PENDING,
            LocalUserView::Authenticated { id, nickname, avatar_seed } => {
                &&& token is Some
                &&& uuid_parse(token.unwrap()) == Some(id)
                &&& store.user(id) is Some
                &&& store.user(id).unwrap().status != AccountStatus::PENDING
                &&& store.user(id).unwrap().nickname == nickname
                &&& store.user(id).unwrap().avatar_seed == avatar_seed
            },
        },
{
    if token is Some && uuid_parse(token.unwrap()) is Some {
        let id = uuid_parse(token.unwrap()).unwrap();
        if store.has_user(id) {
            let k = store.user_index(id);
            assert(store.users[k].id == id);
        }
    }
}

/// A listing is written only for an authenticated identity whose account
/// is there at the time, and it names that account as its creator.
pub proof fn law_listing_creator_is_authenticated_and_there(
    store: StoreView,
    who: LocalUserView,
    title: Seq<char>,
    description: Seq<char>,
    listing_type: Seq<char>,
    campus: Seq<char>,
    image_count: nat,
    listing_id: u128,
    now: u64,
)
    requires
        store.wf(),
        creation_verdict(
            store,
            who,
            title,
            description,
            listing_type,
            campus,
            image_count,
            listing_id,
            now,
        ).is_ok(),
    ensures
        ({
            let row = creation_verdict(
                store,
                who,
                title,
                description,
                listing_type,
                campus,
                image_count,
                listing_id,
                now,
            ).unwrap();
            &&& who.authenticated_id() == Some(row.creator_id)
            &&& store.has_user(row.creator_id)
            &&& image_count > 0
            &&& store.with_listing(row).wf()
            &&& store.with_listing(row).listing(listing_id) == Some(row)
        }),
{
    let row = creation_verdict(
        store,
        who,
        title,
        description,
        listing_type,
        campus,
        image_count,
        listing_id,
        now,
    ).unwrap();
    crate::model::lemma_with_listing_wf(store, row);
    let after = store.with_listing(row);
    assert(after.listings[after.listings.len() - 1] == row);
}

/// A change of nickname, credential or avatar seed leaves every account's
/// id, email and status as they were.
pub proof fn law_settings_keep_status(
    store: StoreView,
    id: u128,
    nickname: Seq<char>,
    credential: Seq<char>,
    seed: u128,
    i: int,
)
    requires
        0 <= i < store.users.len(),
    ensures
        store.with_nickname(id, nickname).users[i].status == store.users[i].status,
        store.with_nickname(id, nickname).users[i].id == store.users[i].id,
        store.with_nickname(id, nickname).users[i].email == store.users[i].email,
        store.with_credential(id, credential).users[i].status == store.users[i].status,
        store.with_credential(id, credential).users[i].id == store.users[i].id,
        store.with_credential(id, credential).users[i].nickname == store.users[i].nickname,
        store.with_avatar_seed(id, seed).users[i].status == store.users[i].status,
        store.with_avatar_seed(id, seed).users[i].id == store.users[i].id,
        store.with_avatar_seed(id, seed).users[i].nickname == store.users[i].nickname,
{
}

/// An account that has been registered cannot log in until its code has
/// been redeemed; once it has, the nickname and the password it was
/// registered with log it in.
pub proof fn law_login_follows_confirmation(
    store: StoreView,
    nickname: Seq<char>,
    email: Seq<char>,
    password: Seq<char>,
    credential: Seq<char>,
    ids: NewAccountIds,
    now: u64,
)
    requires
        store.wf(),
        write_verdict(store, nickname, email, ids).is_ok(),
        credential_check(password, credential) == Some(true),
    ensures
        ({
            let registered = with_registration(store, nickname, email, credential, ids, now);
            let confirmed = with_confirmation(registered, ids.code);
            &&& login_verdict(registered, nickname, password) == Err::<u128, LoginError>(
                LoginError::InvalidCredentials,
            )
            &&& login_verdict(confirmed, nickname, password) == Ok::<u128, LoginError>(
                ids.user_id,
            )
        }),
{
    let row = new_user_row(nickname, email, credential, ids, now);
    let registered = with_registration(store, nickname, email, credential, ids, now);
    let confirmed = with_confirmation(registered, ids.code);
    law_registration_writes_pending_account_and_one_code(
        store,
        nickname,
        email,
        credential,
        ids,
        now,
    );
    law_confirmation_code_is_single_use(registered, ids.code, true);
    let last = registered.users.len() - 1;
    assert(registered.users[last] == row);
    assert(registered.nickname_taken(nickname));
    assert(registered.nickname_index(nickname) == last) by {
        let k = registered.nickname_index(nickname);
        if k != last {
            assert(registered.users[k].nickname != registered.users[last].nickname);
        }
    }
    assert(confirmed.users[last] == UserView { status: AccountStatus::CONFIRMED, ..row });
    assert(confirmed.nickname_taken(nickname));
    assert(confirmed.nickname_index(nickname) == last) by {
        let k = confirmed.nickname_index(nickname);
        if k != last {
            assert(confirmed.users[k].nickname != confirmed.users[last].nickname);
        }
    }
}

/// Where the tables hold the creator's account and no listing under the id
/// that is drawn, a submission that passes the checks is written. So in
/// tables without listings it is written whatever id is drawn: the first
/// listing of an account cannot fail on its id.
pub proof fn law_checked_submission_is_written(
    store: StoreView,
    who: LocalUserView,
    title: Seq<char>,
    description: Seq<char>,
    listing_type: Seq<char>,
    campus: Seq<char>,
    image_count: nat,
    listing_id: u128,
    now: u64,
)
    requires
        submission_verdict(who, listing_type, campus, image_count) matches Ok(submission)
            && store.has_user(submission.creator_id),
        !store.has_listing(listing_id),
    ensures
        creation_verdict(
            store,
            who,
            title,
            description,
            listing_type,
            campus,
            image_count,
            listing_id,
            now,
        ).is_ok(),
        store.listings.len() == 0 ==> forall|drawn: u128|
            (#[trigger] creation_verdict(
                store,
                who,
                title,
                description,
                listing_type,
                campus,
                image_count,
                drawn,
                now,
            )).is_ok(),
{
}

/// A change of avatar and a deletion are refused for every identity that is
/// not authenticated, the pending one as much as the anonymous one, and a
/// refusal leaves the tables as they were.
pub proof fn law_settings_need_an_authenticated_identity(
    store: StoreView,
    who: LocalUserView,
    seed: u128,
)
    requires
        who.authenticated_id() is None,
    ensures
        who is Anonymous || who is Pending,
        authenticated_verdict(who) == Err::<(), SettingsError>(SettingsError::NotAuthenticated),
        with_new_avatar(store, who, seed) == store,
        with_deletion(store, who) == store,
{
}

} // verus!
