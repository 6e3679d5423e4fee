use vstd::prelude::*;
use vstd::string::StringExecFns;
use crate::domain::{Campus, Type};
use crate::identity::{LocalUser, LocalUserView};
use crate::ids::{format_hyphenated, hyphenated_form, random_id};
use crate::model::{Attachment, Listing, ListingView, StoreView};
use crate::store::Store;

verus! {

/// What the form for a new listing submits, but for the files themselves.
#[derive(Debug, Clone, PartialEq, Eq)]
pub struct ItemForm {
    pub title: String,
    pub description: String,
    pub listing_type: String,
    pub campus: String,
}

/// Why a listing was not created.
#[derive(Debug, Clone, Copy, PartialEq, Eq, Structural)]
pub enum SubmitError {
    /// The request comes from nobody who is logged in.
    Unauthorized,
    /// The request comes from an account whose email is not confirmed.
    Forbidden,
    /// No file came with the form.
    NoImages,
    InvalidType,
    InvalidCampus,
    /// The listing row was refused.
    InternalError,
}

/// What a submission is checked to be: who creates the listing, of which
/// kind, at which campus.
#[derive(Debug, Clone, Copy, PartialEq, Eq, Structural)]
pub struct Submission {
    pub creator_id: u128,
    pub type_: Type,
    pub campus: Campus,
}

/// What the checks on a submission say. The identity is judged first, then
/// whether any file came along, then the kind, then the campus.
pub open spec fn submission_verdict(
    who: LocalUserView,
    listing_type: Seq<char>,
    campus: Seq<char>,
    image_count: nat,
) -> Result<Submission, SubmitError> {
    match who {
        LocalUserView::Anonymous => Err(SubmitError::Unauthorized),
        LocalUserView::Pending => Err(SubmitError::Forbidden),
        LocalUserView::Authenticated { id, .. } => if image_count == 0 {
            Err(SubmitError::NoImages)
        } else {
            match Type::parse(listing_type) {
                None => Err(SubmitError::InvalidType),
                Some(type_) => match Campus::parse(campus) {
                    None => Err(SubmitError::InvalidCampus),
                    Some(campus) => Ok(Submission { creator_id: id, type_, campus }),
                },
            }
        },
    }
}

/// The listing row that a checked submission writes.
pub open spec fn new_listing_row(
    submission: Submission,
    title: Seq<char>,
    description: Seq<char>,
    listing_id: u128,
    now: u64,
) -> ListingView {
    ListingView {
        id: listing_id,
        title,
        description,
        type_: submission.type_,
        campus: submission.campus,
        creator_id: submission.creator_id,
        created_at: now,
    }
}

/// Runs the checks on a submission.
pub fn check_submission(local_user: &LocalUser, form: &ItemForm, image_count: usize) -> (verdict:
    Result<Submission, SubmitError>)
    ensures
        verdict == submission_verdict(
            local_user@,
            form.listing_type@,
            form.campus@,
            image_count as nat,
        ),
{
    let creator_id = match local_user {
        LocalUser::Anonymous => {
            return Err(SubmitError::Unauthorized);
        },
        LocalUser::Pending => {
            return Err(SubmitError::Forbidden);
        },
        LocalUser::Authenticated { id, .. } => *id,
    };
    if image_count == 0 {
        return Err(SubmitError::NoImages);
    }
    let type_ = match Type::from_label(form.listing_type.as_str()) {
        None => {
            return Err(SubmitError::InvalidType);
        },
        Some(type_) => type_,
    };
    let campus = match Campus::from_label(form.campus.as_str()) {
        None => {
            return Err(SubmitError::InvalidCampus);
        },
        Some(campus) => campus,
    };
    Ok(Submission { creator_id, type_, campus })
}

/// What creating a listing under the id `listing_id` gives: the first error
/// of the checks, else an internal error where the row is refused, else the
/// id.
pub open spec fn creation_verdict(
    store: StoreView,
    who: LocalUserView,
    title: Seq<char>,
    description: Seq<char>,
    listing_type: Seq<char>,
    campus: Seq<char>,
    image_count: nat,
    listing_id: u128,
    now: u64,
) -> Result<ListingView, SubmitError> {
    match submission_verdict(who, listing_type, campus, image_count) {
        Err(refusal) => Err(refusal),
        Ok(submission) => {
            let row = new_listing_row(submission, title, description, listing_id, now);
            if store.listing_conflict(row).is_ok() {
                Ok(row)
            } else {
                Err(SubmitError::InternalError)
            }
        },
    }
}

/// Checks a submission and writes its listing row under the id
/// `listing_id`. Nothing is written where the submission is refused.
pub fn create_listing(
    store: &mut Store,
    local_user: &LocalUser,
    form: &ItemForm,
    image_count: usize,
    listing_id: u128,
    now: u64,
) -> (outcome: Result<u128, SubmitError>)
    ensures
        final(store)@.wf(),
        match creation_verdict(
            old(store)@,
            local_user@,
            form.title@,
            form.description@,
            form.listing_type@,
            form.campus@,
            image_count as nat,
            listing_id,
            now,
        ) {
            Ok(row) => outcome == Ok::<u128, SubmitError>(listing_id) && final(store)@ == old(
                store,
            )@.with_listing(row),
            Err(refusal) => outcome == Err::<u128, SubmitError>(refusal) && final(store)@ == old(
                store,
            )@,
        },
{
    proof {
        use_type_invariant(&*store);
    }
    let submission = match check_submission(local_user, form, image_count) {
        Err(refusal) => {
            return Err(refusal);
        },
        Ok(submission) => submission,
    };
    let listing = Listing {
        id: listing_id,
        title: form.title.clone(),
        description: form.description.clone(),
        type_: submission.type_,
        campus: submission.campus,
        creator_id: submission.creator_id,
        created_at: now,
    };
    match store.insert_listing(listing) {
        Ok(()) => Ok(listing_id),
        Err(_) => Err(SubmitError::InternalError),
    }
}

/// Submits a new listing: checks the identity, that at least one file came
/// along, and the kind and the campus, and writes the listing row under a
/// fresh id, which is returned. The files are dealt with afterwards, one by
/// one, and what becomes of them does not undo the listing.
///
/// A submission fails only as the checks say, or because the listing row
/// under the id that was drawn is refused. Where no id would be refused, as
/// in tables without listings that hold the creator's account, a submission
/// that passes the checks goes through.
pub fn submit_item(
    store: &mut Store,
    local_user: &LocalUser,
    form: &ItemForm,
    image_count: usize,
    now: u64,
) -> (outcome: Result<u128, SubmitError>)
    ensures
        final(store)@.wf(),
        match outcome {
            Ok(listing_id) => creation_verdict(
                old(store)@,
                local_user@,
                form.title@,
                form.description@,
                form.listing_type@,
                form.campus@,
                image_count as nat,
                listing_id,
                now,
            ) matches Ok(row) && final(store)@ == old(store)@.with_listing(row),
            Err(error) => {
                &&& final(store)@ == old(store)@
                &&& error == match submission_verdict(
                    local_user@,
                    form.listing_type@,
                    form.campus@,
                    image_count as nat,
                ) {
                    Err(refusal) => refusal,
                    Ok(_) => SubmitError::InternalError,
                }
                &&& exists|drawn: u128|
                    #[trigger] creation_verdict(
                        old(store)@,
                        local_user@,
                        form.title@,
                        form.description@,
                        form.listing_type@,
                        form.campus@,
                        image_count as nat,
                        drawn,
                        now,
                    ) == Err::<ListingView, SubmitError>(error)
            },
        },
{
    proof {
        use_type_invariant(&*store);
    }
    let listing_id = random_id();
    create_listing(store, local_user, form, image_count, listing_id, now)
}

/// The key under which an attachment is kept in the object store: the
/// creator's id and the attachment's id, both in hyphenated form, with a
/// slash between them.
pub open spec fn object_key_text(creator_id: u128, attachment_id: u128) -> Seq<char> {
    hyphenated_form(creator_id) + seq!['/'] + hyphenated_form(attachment_id)
}

/// The key under which an attachment is kept in the object store.
pub fn object_key(creator_id: u128, attachment_id: u128) -> (key: String)
    ensures
        key@ == object_key_text(creator_id, attachment_id),
{
    let mut key = format_hyphenated(creator_id);
    proof {
        reveal_strlit("/");
    }
    key.append("/");
    assert(key@ =~= hyphenated_form(creator_id) + seq!['/']);
    let tail = format_hyphenated(attachment_id);
    key.append(tail.as_str());
    key
}

/// Where the next file of a submission is to go.
#[derive(Debug, Clone, PartialEq, Eq)]
pub struct UploadPlan {
    pub attachment_id: u128,
    pub key: String,
}

/// Picks a fresh id for the next file of a submission and says under which
/// key the file is to be kept.
pub fn plan_upload(creator_id: u128) -> (plan: UploadPlan)
    ensures
        plan.key@ == object_key_text(creator_id, plan.attachment_id),
{
    let attachment_id = random_id();
    UploadPlan { attachment_id, key: object_key(creator_id, attachment_id) }
}

/// What became of one file on its way to the object store.
#[derive(Debug, Clone, Copy, PartialEq, Eq, Structural)]
pub enum Transfer {
    /// The file could not be put in the scratch location.
    PersistFailed,
    /// The file could not be sent to the object store.
    UploadFailed,
    /// The object is in the object store, but where the rows are kept for
    /// good the row of the attachment was refused.
    RowRefused,
    /// The object is in the object store, and nothing outside these tables
    /// refuses its row.
    Uploaded,
}

/// One file of a submission: the id picked for it and what became of it.
#[derive(Debug, Clone, Copy, PartialEq, Eq, Structural)]
pub struct Upload {
    pub attachment_id: u128,
    pub transfer: Transfer,
}

/// Why a file has no attachment row.
#[derive(Debug, Clone, Copy, PartialEq, Eq, Structural)]
pub enum SkipReason {
    PersistFailed,
    UploadFailed,
    InsertFailed,
}

/// What the log says of one file.
#[derive(Debug, Clone, Copy, PartialEq, Eq, Structural)]
pub enum AttachmentOutcome {
    /// The object is stored and the attachment row is written.
    Stored,
    /// The file was passed over; no row was written for it.
    Skipped(SkipReason),
}

/// What the log says of one file, given the tables at the time: a row is
/// written only for an object that is in the object store, and only where
/// the tables do not refuse it.
pub open spec fn upload_outcome(store: StoreView, listing_id: u128, upload: Upload) -> AttachmentOutcome {
    match upload.transfer {
        Transfer::PersistFailed => AttachmentOutcome::Skipped(SkipReason::PersistFailed),
        Transfer::UploadFailed => AttachmentOutcome::Skipped(SkipReason::UploadFailed),
        Transfer::RowRefused => AttachmentOutcome::Skipped(SkipReason::InsertFailed),
        Transfer::Uploaded => if store.attachment_conflict(
            Attachment { id: upload.attachment_id, listing_id },
        ).is_ok() {
            AttachmentOutcome::Stored
        } else {
            AttachmentOutcome::Skipped(SkipReason::InsertFailed)
        },
    }
}

/// The tables after one file has been dealt with.
pub open spec fn after_upload(store: StoreView, listing_id: u128, upload: Upload) -> StoreView {
    if upload_outcome(store, listing_id, upload) is Stored {
        store.with_attachment(Attachment { id: upload.attachment_id, listing_id })
    } else {
        store
    }
}

/// The tables after the files have been dealt with, one after the other.
pub open spec fn after_uploads(store: StoreView, listing_id: u128, uploads: Seq<Upload>) -> StoreView
    decreases uploads.len(),
{
    if uploads.len() == 0 {
        store
    } else {
        after_upload(
            after_uploads(store, listing_id, uploads.drop_last()),
            listing_id,
            uploads.last(),
        )
    }
}

/// The log of the files, one entry for each, in their order.
pub open spec fn upload_outcomes(store: StoreView, listing_id: u128, uploads: Seq<Upload>) -> Seq<
    AttachmentOutcome,
>
    decreases uploads.len(),
{
    if uploads.len() == 0 {
        Seq::empty()
    } else {
        upload_outcomes(store, listing_id, uploads.drop_last()).push(
            upload_outcome(
                after_uploads(store, listing_id, uploads.drop_last()),
                listing_id,
                uploads.last(),
            ),
        )
    }
}

/// Records what became of one file of the listing `listing_id`: where the
/// object is stored, its attachment row is written; a file that failed on
/// the way, or whose row is refused here or where the rows are kept for
/// good, is passed over and no row is written for it.
pub fn record_upload(store: &mut Store, listing_id: u128, upload: &Upload) -> (outcome:
    AttachmentOutcome)
    ensures
        final(store)@.wf(),
        outcome == upload_outcome(old(store)@, listing_id, *upload),
        final(store)@ == after_upload(old(store)@, listing_id, *upload),
{
    proof {
        use_type_invariant(&*store);
    }
    match upload.transfer {
        Transfer::PersistFailed => AttachmentOutcome::Skipped(SkipReason::PersistFailed),
        Transfer::UploadFailed => AttachmentOutcome::Skipped(SkipReason::UploadFailed),
        Transfer::RowRefused => AttachmentOutcome::Skipped(SkipReason::InsertFailed),
        Transfer::Uploaded => {
            match store.insert_attachment(Attachment { id: upload.attachment_id, listing_id }) {
                Ok(()) => AttachmentOutcome::Stored,
                Err(_) => AttachmentOutcome::Skipped(SkipReason::InsertFailed),
            }
        },
    }
}

/// Records what became of the files of the listing `listing_id`, one after
/// the other, and returns the log: one entry for each file, in their order.
/// A file that is passed over does not stop the ones after it.
pub fn record_uploads(store: &mut Store, listing_id: u128, uploads: &Vec<Upload>) -> (log: Vec<
    AttachmentOutcome,
>)
    ensures
        final(store)@.wf(),
        log@ == upload_outcomes(old(store)@, listing_id, uploads@),
        final(store)@ == after_uploads(old(store)@, listing_id, uploads@),
{
    proof {
        use_type_invariant(&*store);
    }
    let mut log: Vec<AttachmentOutcome> = Vec::new();
    let mut i: usize = 0;
    while i < uploads.len()
        invariant
            i <= uploads.len(),
            store@.wf(),
            log@ == upload_outcomes(old(store)@, listing_id, uploads@.take(i as int)),
            store@ == after_uploads(old(store)@, listing_id, uploads@.take(i as int)),
        decreases uploads.len() - i,
    {
        proof {
            assert(uploads@.take(i + 1).drop_last() =~= uploads@.take(i as int));
        }
        let outcome = record_upload(store, listing_id, &uploads[i]);
        log.push(outcome);
        i += 1;
    }
    proof {
        assert(uploads@.take(i as int) =~= uploads@);
    }
    log
}

} // verus!
