use vstd::prelude::*;
use vstd::string::StringExecFns;
use crate::domain::AccountStatus;
use crate::ids::{format_hyphenated, hyphenated_form};
use crate::model::{Attachment, StoreView};
use crate::store::Store;
use crate::submit::{object_key, object_key_text};

verus! {

/// For how many seconds a signed link to an attachment is good.
pub const PRESIGNED_URL_SECONDS: u64 = 120;

/// How many listings a page shows where the request does not say.
pub const DEFAULT_PAGE_SIZE: usize = 10;

/// Which part of the listings a request asks for.
#[derive(Debug, Clone, PartialEq, Eq)]
pub struct PaginationQuery {
    pub deslocamento: Option<usize>,
    pub quantidade: Option<usize>,
}

impl PaginationQuery {
    /// How many listings to pass over: none, unless the request says.
    pub fn offset(&self) -> (skipped: usize)
        ensures
            skipped == match self.deslocamento {
                Some(n) => n,
                None => 0,
            },
    {
        match self.deslocamento {
            Some(n) => n,
            None => 0,
        }
    }

    /// How many listings to show: `DEFAULT_PAGE_SIZE`, unless the request
    /// says.
    pub fn limit(&self) -> (shown: usize)
        ensures
            shown == match self.quantidade {
                Some(n) => n,
                None => DEFAULT_PAGE_SIZE,
            },
    {
        match self.quantidade {
            Some(n) => n,
            None => DEFAULT_PAGE_SIZE,
        }
    }
}

/// The name of the bucket that holds the attachments.
pub open spec fn bucket_text() -> Seq<char> {
    "coisandocoisas"@
}

/// The name of the bucket that holds the attachments.
pub fn bucket() -> (name: &'static str)
    ensures
        name@ == bucket_text(),
{
    "coisandocoisas"
}

/// What is asked of the object store for one view of an attachment: a
/// read-only link to the object `key` in `bucket` that is good for
/// `expires_in_seconds`.
#[derive(Debug, Clone, PartialEq, Eq)]
pub struct PresignRequest {
    pub bucket: String,
    pub key: String,
    pub expires_in_seconds: u64,
}

/// Why an attachment is not shown.
#[derive(Debug, Clone, Copy, PartialEq, Eq, Structural)]
pub enum ViewAttachmentError {
    /// The owner has no account, or one that is not confirmed.
    InvalidUser,
}

/// Whether the account `user_id` is there and confirmed.
pub open spec fn owner_confirmed(store: StoreView, user_id: u128) -> bool {
    store.user(user_id) matches Some(owner) && owner.status == AccountStatus::CONFIRMED
}

/// The request for a short-lived signed link to the attachment
/// `attachment_id` of the account `user_id`.
pub fn presign_request(user_id: u128, attachment_id: u128) -> (request: PresignRequest)
    ensures
        request.bucket@ == bucket_text(),
        request.key@ == object_key_text(user_id, attachment_id),
        request.expires_in_seconds == PRESIGNED_URL_SECONDS,
{
    PresignRequest {
        bucket: bucket().to_owned(),
        key: object_key(user_id, attachment_id),
        expires_in_seconds: PRESIGNED_URL_SECONDS,
    }
}

/// Answers a request to view the attachment `attachment_id` of the account
/// `user_id`. The owner must be there and confirmed, whether or not the
/// object exists; then a signed link is to be asked of the object store, one
/// for each request.
pub fn view_attachment(store: &Store, user_id: u128, attachment_id: u128) -> (outcome: Result<
    PresignRequest,
    ViewAttachmentError,
>)
    ensures
        match outcome {
            Ok(request) => {
                &&& owner_confirmed(store@, user_id)
                &&& request.bucket@ == bucket_text()
                &&& request.key@ == object_key_text(user_id, attachment_id)
                &&& request.expires_in_seconds == PRESIGNED_URL_SECONDS
            },
            Err(error) => !owner_confirmed(store@, user_id) && error
                == ViewAttachmentError::InvalidUser,
        },
{
    match store.find_user(user_id) {
        None => Err(ViewAttachmentError::InvalidUser),
        Some(owner) => {
            if owner.status == AccountStatus::CONFIRMED {
                Ok(presign_request(user_id, attachment_id))
            } else {
                Err(ViewAttachmentError::InvalidUser)
            }
        },
    }
}

/// The path under which the attachment `attachment_id` of the account
/// `uploader_id` is viewed.
pub open spec fn image_path_text(uploader_id: u128, attachment_id: u128) -> Seq<char> {
    "/attachments/"@ + object_key_text(uploader_id, attachment_id)
}

/// The path under which the attachment `attachment_id` of the account
/// `uploader_id` is viewed.
pub fn image_path(uploader_id: u128, attachment_id: u128) -> (path: String)
    ensures
        path@ == image_path_text(uploader_id, attachment_id),
{
    let mut path = "/attachments/".to_owned();
    let key = object_key(uploader_id, attachment_id);
    path.append(key.as_str());
    path
}

/// The paths of the attachments of a sequence of rows, in their order.
pub open spec fn image_paths(uploader_id: u128, rows: Seq<Attachment>) -> Seq<Seq<char>> {
    rows.map_values(|a: Attachment| image_path_text(uploader_id, a.id))
}

/// The paths under which the images of the listing `listing_id` are viewed,
/// in the order in which they were attached.
pub fn get_listing_images(store: &Store, listing_id: u128, uploader_id: u128) -> (paths: Vec<String>)
    ensures
        paths@.map_values(|p: String| p@) == image_paths(
            uploader_id,
            store@.attachments_of(listing_id),
        ),
{
    let rows = store.attachments_of(listing_id);
    let mut paths: Vec<String> = Vec::new();
    let mut i: usize = 0;
    while i < rows.len()
        invariant
            i <= rows.len(),
            paths@.map_values(|p: String| p@) == image_paths(uploader_id, rows@.take(i as int)),
        decreases rows.len() - i,
    {
        let ghost before = paths@;
        let path = image_path(uploader_id, rows[i].id);
        paths.push(path);
        assert(paths@.map_values(|p: String| p@) =~= before.map_values(|p: String| p@).push(
            path@,
        ));
        assert(image_paths(uploader_id, rows@.take(i + 1)) =~= image_paths(
            uploader_id,
            rows@.take(i as int),
        ).push(image_path_text(uploader_id, rows@[i as int].id)));
        i += 1;
    }
    assert(rows@.take(i as int) =~= rows@);
    paths
}

/// The address of the generated picture that stands for an avatar seed: the
/// picture is a function of the seed alone.
pub open spec fn avatar_url_text(avatar_seed: u128) -> Seq<char> {
    "https://api.dicebear.com/9.x/dylan/svg?seed="@ + hyphenated_form(avatar_seed)
        + "&radius=50&backgroundColor=29e051,619eff,ffa6e6,b6e3f4,c0aede,d1d4f9,ffd5dc,ffdfbf&hair=buns,flatTop,fluffy,longCurls,parting,plain,roundBob,shaggy,shortCurls,spiky,wavy,bangs&mood=happy,hopeful,superHappy"@
}

/// The address of the generated picture that stands for an avatar seed.
pub fn avatar_url(avatar_seed: u128) -> (url: String)
    ensures
        url@ == avatar_url_text(avatar_seed),
{
    let mut url = "https://api.dicebear.com/9.x/dylan/svg?seed=".to_owned();
    let seed = format_hyphenated(avatar_seed);
    url.append(seed.as_str());
    url.append(
        "&radius=50&backgroundColor=29e051,619eff,ffa6e6,b6e3f4,c0aede,d1d4f9,ffd5dc,ffdfbf&hair=buns,flatTop,fluffy,longCurls,parting,plain,roundBob,shaggy,shortCurls,spiky,wavy,bangs&mood=happy,hopeful,superHappy",
    );
    url
}

} // verus!
