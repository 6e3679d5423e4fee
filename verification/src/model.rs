use vstd::prelude::*;
use crate::domain::{AccountStatus, Campus, Type};
use crate::seq_facts::{lemma_filter_keeps, lemma_filter_keeps_distinct, lemma_filter_member};

verus! {

/// Which constraint of the tables refused a row.
#[derive(Debug, Clone, Copy, PartialEq, Eq, Structural)]
pub enum StoreError {
    DuplicateNickname,
    DuplicateEmail,
    DuplicateUserId,
    DuplicateCode,
    DuplicateListingId,
    DuplicateAttachmentId,
    NoSuchUser,
    NoSuchListing,
}

/// An account row.
#[derive(Debug, Clone, PartialEq, Eq)]
pub struct User {
    pub id: u128,
    pub nickname: String,
    pub email: String,
    pub hashed_password: String,
    pub avatar_seed: u128,
    pub status: AccountStatus,
    pub created_at: u64,
}

/// What an account row holds.
pub struct UserView {
    pub id: u128,
    pub nickname: Seq<char>,
    pub email: Seq<char>,
    pub hashed_password: Seq<char>,
    pub avatar_seed: u128,
    pub status: AccountStatus,
    pub created_at: u64,
}

impl View for User {
    type V = UserView;

    open spec fn view(&self) -> UserView {
        UserView {
            id: self.id,
            nickname: self.nickname@,
            email: self.email@,
            hashed_password: self.hashed_password@,
            avatar_seed: self.avatar_seed,
            status: self.status,
            created_at: self.created_at,
        }
    }
}

/// A one-time code that proves control of the address an account was
/// registered with.
#[derive(Debug, Clone, Copy, PartialEq, Eq, Structural)]
pub struct ConfirmationCode {
    pub code: u128,
    pub user_id: u128,
}

/// A listing row.
#[derive(Debug, Clone, PartialEq, Eq)]
pub struct Listing {
    pub id: u128,
    pub title: String,
    pub description: String,
    pub type_: Type,
    pub campus: Campus,
    pub creator_id: u128,
    pub created_at: u64,
}

/// What a listing row holds.
pub struct ListingView {
    pub id: u128,
    pub title: Seq<char>,
    pub description: Seq<char>,
    pub type_: Type,
    pub campus: Campus,
    pub creator_id: u128,
    pub created_at: u64,
}

impl View for Listing {
    type V = ListingView;

    open spec fn view(&self) -> ListingView {
        ListingView {
            id: self.id,
            title: self.title@,
            description: self.description@,
            type_: self.type_,
            campus: self.campus,
            creator_id: self.creator_id,
            created_at: self.created_at,
        }
    }
}

/// The row that links a listing to one object in the object store.
#[derive(Debug, Clone, Copy, PartialEq, Eq, Structural)]
pub struct Attachment {
    pub id: u128,
    pub listing_id: u128,
}

/// The four tables as sequences of rows, in insertion order.
pub struct StoreView {
    pub users: Seq<UserView>,
    pub codes: Seq<ConfirmationCode>,
    pub listings: Seq<ListingView>,
    pub attachments: Seq<Attachment>,
}

impl StoreView {
    /// Tables without rows.
    pub open spec fn empty() -> StoreView {
        StoreView {
            users: Seq::empty(),
            codes: Seq::empty(),
            listings: Seq::empty(),
            attachments: Seq::empty(),
        }
    }

    /// Whether there is an account `id`.
    pub open spec fn has_user(self, id: u128) -> bool {
        exists|i: int| 0 <= i < self.users.len() && (#[trigger] self.users[i]).id == id
    }

    /// Whether some account goes by `nickname`.
    pub open spec fn nickname_taken(self, nickname: Seq<char>) -> bool {
        exists|i: int| 0 <= i < self.users.len() && (#[trigger] self.users[i]).nickname == nickname
    }

    /// Whether some account was registered with `email`.
    pub open spec fn email_taken(self, email: Seq<char>) -> bool {
        exists|i: int| 0 <= i < self.users.len() && (#[trigger] self.users[i]).email == email
    }

    /// Whether the confirmation code `code` is there.
    pub open spec fn has_code(self, code: u128) -> bool {
        exists|i: int| 0 <= i < self.codes.len() && (#[trigger] self.codes[i]).code == code
    }

    /// Whether there is a listing `id`.
    pub open spec fn has_listing(self, id: u128) -> bool {
        exists|i: int| 0 <= i < self.listings.len() && (#[trigger] self.listings[i]).id == id
    }

    /// Whether there is an attachment `id`.
    pub open spec fn has_attachment(self, id: u128) -> bool {
        exists|i: int| 0 <= i < self.attachments.len() && (#[trigger] self.attachments[i]).id == id
    }

    /// Where the account `id` stands among the rows.
    pub open spec fn user_index(self, id: u128) -> int {
        choose|i: int| 0 <= i < self.users.len() && (#[trigger] self.users[i]).id == id
    }

    /// The account `id`, if there is one.
    pub open spec fn user(self, id: u128) -> Option<UserView> {
        if self.has_user(id) {
            Some(self.users[self.user_index(id)])
        } else {
            None
        }
    }

    /// Where the listing `id` stands among the rows.
    pub open spec fn listing_index(self, id: u128) -> int {
        choose|i: int| 0 <= i < self.listings.len() && (#[trigger] self.listings[i]).id == id
    }

    /// The listing `id`, if there is one.
    pub open spec fn listing(self, id: u128) -> Option<ListingView> {
        if self.has_listing(id) {
            Some(self.listings[self.listing_index(id)])
        } else {
            None
        }
    }

    /// Where the account with `nickname` stands among the rows.
    pub open spec fn nickname_index(self, nickname: Seq<char>) -> int {
        choose|i: int| 0 <= i < self.users.len() && (#[trigger] self.users[i]).nickname == nickname
    }

    /// The account that goes by `nickname`, if there is one.
    pub open spec fn user_named(self, nickname: Seq<char>) -> Option<UserView> {
        if self.nickname_taken(nickname) {
            Some(self.users[self.nickname_index(nickname)])
        } else {
            None
        }
    }

    /// Where the row of `code` stands among the rows.
    pub open spec fn code_index(self, code: u128) -> int {
        choose|i: int| 0 <= i < self.codes.len() && (#[trigger] self.codes[i]).code == code
    }

    /// The account that `code` was issued to, if the code is there.
    pub open spec fn code_owner(self, code: u128) -> Option<u128> {
        if self.has_code(code) {
            Some(self.codes[self.code_index(code)].user_id)
        } else {
            None
        }
    }

    /// The codes that are held for the account `user_id`, in insertion order.
    pub open spec fn codes_of(self, user_id: u128) -> Seq<ConfirmationCode> {
        self.codes.filter(|c: ConfirmationCode| c.user_id == user_id)
    }

    /// The attachments of the listing `listing_id`, in insertion order.
    pub open spec fn attachments_of(self, listing_id: u128) -> Seq<Attachment> {
        self.attachments.filter(|a: Attachment| a.listing_id == listing_id)
    }

    /// No two accounts share an id, a nickname or an email.
    pub open spec fn users_unique(self) -> bool {
        forall|i: int, j: int|
            0 <= i < self.users.len() && 0 <= j < self.users.len() && i != j ==> {
                &&& (#[trigger] self.users[i]).id != (#[trigger] self.users[j]).id
                &&& self.users[i].nickname != self.users[j].nickname
                &&& self.users[i].email != self.users[j].email
            }
    }

    /// No two rows hold the same code, and every code belongs to an account.
    pub open spec fn codes_sound(self) -> bool {
        &&& forall|i: int, j: int|
            0 <= i < self.codes.len() && 0 <= j < self.codes.len() && i != j ==> (
            #[trigger] self.codes[i]).code != (#[trigger] self.codes[j]).code
        &&& forall|i: int|
            0 <= i < self.codes.len() ==> self.has_user((#[trigger] self.codes[i]).user_id)
    }

    /// No two listings share an id.
    pub open spec fn listings_unique(self) -> bool {
        forall|i: int, j: int|
            0 <= i < self.listings.len() && 0 <= j < self.listings.len() && i != j ==> (
            #[trigger] self.listings[i]).id != (#[trigger] self.listings[j]).id
    }

    /// No two attachments share an id, and every attachment belongs to a listing.
    pub open spec fn attachments_sound(self) -> bool {
        &&& forall|i: int, j: int|
            0 <= i < self.attachments.len() && 0 <= j < self.attachments.len() && i != j ==> (
            #[trigger] self.attachments[i]).id != (#[trigger] self.attachments[j]).id
        &&& forall|i: int|
            0 <= i < self.attachments.len() ==> self.has_listing(
                (#[trigger] self.attachments[i]).listing_id,
            )
    }

    /// The constraints that the tables keep at all times.
    pub open spec fn wf(self) -> bool {
        &&& self.users_unique()
        &&& self.codes_sound()
        &&& self.listings_unique()
        &&& self.attachments_sound()
    }

    /// The constraint that refuses a new account: its nickname is judged
    /// first, then its email, then its id.
    pub open spec fn user_conflict(self, user: UserView) -> Result<(), StoreError> {
        if self.nickname_taken(user.nickname) {
            Err(StoreError::DuplicateNickname)
        } else if self.email_taken(user.email) {
            Err(StoreError::DuplicateEmail)
        } else if self.has_user(user.id) {
            Err(StoreError::DuplicateUserId)
        } else {
            Ok(())
        }
    }

    /// The constraint that refuses a new confirmation code.
    pub open spec fn code_conflict(self, code: ConfirmationCode) -> Result<(), StoreError> {
        if self.has_code(code.code) {
            Err(StoreError::DuplicateCode)
        } else if !self.has_user(code.user_id) {
            Err(StoreError::NoSuchUser)
        } else {
            Ok(())
        }
    }

    /// The constraint that refuses a new listing: its id must be unused and
    /// its creator must have an account at the time.
    pub open spec fn listing_conflict(self, listing: ListingView) -> Result<(), StoreError> {
        if self.has_listing(listing.id) {
            Err(StoreError::DuplicateListingId)
        } else if !self.has_user(listing.creator_id) {
            Err(StoreError::NoSuchUser)
        } else {
            Ok(())
        }
    }

    /// The constraint that refuses a new attachment.
    pub open spec fn attachment_conflict(self, attachment: Attachment) -> Result<(), StoreError> {
        if self.has_attachment(attachment.id) {
            Err(StoreError::DuplicateAttachmentId)
        } else if !self.has_listing(attachment.listing_id) {
            Err(StoreError::NoSuchListing)
        } else {
            Ok(())
        }
    }

    /// Whether an account other than `id` goes by `nickname`.
    pub open spec fn nickname_held_by_other(self, id: u128, nickname: Seq<char>) -> bool {
        exists|i: int|
            0 <= i < self.users.len() && (#[trigger] self.users[i]).nickname == nickname
                && self.users[i].id != id
    }

    /// The tables with one more account.
    pub open spec fn with_user(self, user: UserView) -> StoreView {
        StoreView { users: self.users.push(user), ..self }
    }

    /// The tables with one more confirmation code.
    pub open spec fn with_code(self, code: ConfirmationCode) -> StoreView {
        StoreView { codes: self.codes.push(code), ..self }
    }

    /// The tables without the row of `code`.
    pub open spec fn without_code(self, code: u128) -> StoreView {
        StoreView { codes: self.codes.filter(|c: ConfirmationCode| c.code != code), ..self }
    }

    /// The tables with one more listing.
    pub open spec fn with_listing(self, listing: ListingView) -> StoreView {
        StoreView { listings: self.listings.push(listing), ..self }
    }

    /// The tables with one more attachment.
    pub open spec fn with_attachment(self, attachment: Attachment) -> StoreView {
        StoreView { attachments: self.attachments.push(attachment), ..self }
    }

    /// The tables with the status of the account `id` set to `status`.
    pub open spec fn with_status(self, id: u128, status: AccountStatus) -> StoreView {
        StoreView {
            users: self.users.map_values(
                |u: UserView|
                    if u.id == id {
                        UserView { status, ..u }
                    } else {
                        u
                    },
            ),
            ..self
        }
    }

    /// The tables with the account `id` confirmed, where it is pending; an
    /// account of any other status stays as it is.
    pub open spec fn with_confirmed(self, id: u128) -> StoreView {
        StoreView {
            users: self.users.map_values(
                |u: UserView|
                    if u.id == id && u.status == AccountStatus::PENDING {
                        UserView { status: AccountStatus::CONFIRMED, ..u }
                    } else {
                        u
                    },
            ),
            ..self
        }
    }

    /// The tables with the nickname of the account `id` set to `nickname`.
    pub open spec fn with_nickname(self, id: u128, nickname: Seq<char>) -> StoreView {
        StoreView {
            users: self.users.map_values(
                |u: UserView|
                    if u.id == id {
                        UserView { nickname, ..u }
                    } else {
                        u
                    },
            ),
            ..self
        }
    }

    /// The tables with the credential of the account `id` set to `credential`.
    pub open spec fn with_credential(self, id: u128, credential: Seq<char>) -> StoreView {
        StoreView {
            users: self.users.map_values(
                |u: UserView|
                    if u.id == id {
                        UserView { hashed_password: credential, ..u }
                    } else {
                        u
                    },
            ),
            ..self
        }
    }

    /// The tables with the avatar seed of the account `id` set to `seed`.
    pub open spec fn with_avatar_seed(self, id: u128, seed: u128) -> StoreView {
        StoreView {
            users: self.users.map_values(
                |u: UserView|
                    if u.id == id {
                        UserView { avatar_seed: seed, ..u }
                    } else {
                        u
                    },
            ),
            ..self
        }
    }

    /// The tables without the account `id` and without the confirmation codes
    /// that were held for it. Listings and attachments stay.
    pub open spec fn without_user(self, id: u128) -> StoreView {
        StoreView {
            users: self.users.filter(|u: UserView| u.id != id),
            codes: self.codes.filter(|c: ConfirmationCode| c.user_id != id),
            ..self
        }
    }
}

/// A new account whose id, nickname and email are all unused keeps the
/// constraints.
pub proof fn lemma_with_user_wf(s: StoreView, user: UserView)
    requires
        s.wf(),
        !s.has_user(user.id),
        !s.nickname_taken(user.nickname),
        !s.email_taken(user.email),
    ensures
        s.with_user(user).wf(),
{
    let t = s.with_user(user);
    assert forall|i: int| 0 <= i < t.codes.len() implies t.has_user(
        (#[trigger] t.codes[i]).user_id,
    ) by {
        let k = s.user_index(s.codes[i].user_id);
        assert(t.users[k] == s.users[k]);
    }
}

/// A new code that is unused and issued to an existing account keeps the
/// constraints.
pub proof fn lemma_with_code_wf(s: StoreView, code: ConfirmationCode)
    requires
        s.wf(),
        !s.has_code(code.code),
        s.has_user(code.user_id),
    ensures
        s.with_code(code).wf(),
{
}

/// A new listing whose id is unused keeps the constraints.
pub proof fn lemma_with_listing_wf(s: StoreView, listing: ListingView)
    requires
        s.wf(),
        !s.has_listing(listing.id),
    ensures
        s.with_listing(listing).wf(),
{
    let t = s.with_listing(listing);
    assert forall|i: int| 0 <= i < t.attachments.len() implies t.has_listing(
        (#[trigger] t.attachments[i]).listing_id,
    ) by {
        let id = s.attachments[i].listing_id;
        let k = choose|k: int| 0 <= k < s.listings.len() && (#[trigger] s.listings[k]).id == id;
        assert(t.listings[k] == s.listings[k]);
    }
}

/// A new attachment whose id is unused and whose listing exists keeps the
/// constraints.
pub proof fn lemma_with_attachment_wf(s: StoreView, attachment: Attachment)
    requires
        s.wf(),
        !s.has_attachment(attachment.id),
        s.has_listing(attachment.listing_id),
    ensures
        s.with_attachment(attachment).wf(),
{
}

/// Rewriting accounts in place keeps the constraints as long as ids stay and
/// nicknames and emails stay distinct.
pub proof fn lemma_rewrite_users_wf(s: StoreView, users: Seq<UserView>)
    requires
        s.wf(),
        users.len() == s.users.len(),
        forall|i: int| 0 <= i < users.len() ==> (#[trigger] users[i]).id == s.users[i].id,
        forall|i: int, j: int|
            0 <= i < users.len() && 0 <= j < users.len() && i != j ==> {
                &&& (#[trigger] users[i]).nickname != (#[trigger] users[j]).nickname
                &&& users[i].email != users[j].email
            },
    ensures
        (StoreView { users, ..s }).wf(),
{
    let t = StoreView { users, ..s };
    assert forall|i: int| 0 <= i < t.codes.len() implies t.has_user(
        (#[trigger] t.codes[i]).user_id,
    ) by {
        let k = s.user_index(s.codes[i].user_id);
        assert(t.users[k].id == s.users[k].id);
    }
    assert forall|i: int, j: int|
        0 <= i < users.len() && 0 <= j < users.len() && i != j implies (#[trigger] users[i]).id != (
        #[trigger] users[j]).id by {
        assert(s.users[i].id != s.users[j].id);
    }
}

/// Rewriting accounts in place keeps the constraints where every account
/// keeps its id, its nickname and its email.
proof fn lemma_rewrite_other_fields_wf(s: StoreView, users: Seq<UserView>)
    requires
        s.wf(),
        users.len() == s.users.len(),
        forall|i: int|
            0 <= i < users.len() ==> {
                &&& (#[trigger] users[i]).id == s.users[i].id
                &&& users[i].nickname == s.users[i].nickname
                &&& users[i].email == s.users[i].email
            },
    ensures
        (StoreView { users, ..s }).wf(),
{
    assert forall|i: int, j: int|
        0 <= i < users.len() && 0 <= j < users.len() && i != j implies {
        &&& (#[trigger] users[i]).nickname != (#[trigger] users[j]).nickname
        &&& users[i].email != users[j].email
    } by {
        assert(s.users[i].nickname != s.users[j].nickname);
    }
    lemma_rewrite_users_wf(s, users);
}

/// Setting a status keeps the constraints.
pub proof fn lemma_with_status_wf(s: StoreView, id: u128, status: AccountStatus)
    requires
        s.wf(),
    ensures
        s.with_status(id, status).wf(),
{
    lemma_rewrite_other_fields_wf(s, s.with_status(id, status).users);
}

/// Setting a credential keeps the constraints.
pub proof fn lemma_with_credential_wf(s: StoreView, id: u128, credential: Seq<char>)
    requires
        s.wf(),
    ensures
        s.with_credential(id, credential).wf(),
{
    lemma_rewrite_other_fields_wf(s, s.with_credential(id, credential).users);
}

/// Setting an avatar seed keeps the constraints.
pub proof fn lemma_with_avatar_seed_wf(s: StoreView, id: u128, seed: u128)
    requires
        s.wf(),
    ensures
        s.with_avatar_seed(id, seed).wf(),
{
    lemma_rewrite_other_fields_wf(s, s.with_avatar_seed(id, seed).users);
}

/// Confirming an account keeps the constraints. It changes the tables only
/// where the account is there and pending, and then it is the same as
/// setting the status of that account to `CONFIRMED`.
pub proof fn lemma_with_confirmed(s: StoreView, id: u128)
    requires
        s.wf(),
    ensures
        s.with_confirmed(id).wf(),
        s.with_confirmed(id) == if s.user(id) matches Some(row) && row.status
            == AccountStatus::PENDING {
            s.with_status(id, AccountStatus::CONFIRMED)
        } else {
            s
        },
{
    let t = s.with_confirmed(id);
    lemma_rewrite_other_fields_wf(s, t.users);
    if s.has_user(id) {
        let k = s.user_index(id);
        assert forall|i: int| 0 <= i < s.users.len() && (#[trigger] s.users[i]).id == id implies i
            == k by {}
        if s.users[k].status == AccountStatus::PENDING {
            assert(t.users =~= s.with_status(id, AccountStatus::CONFIRMED).users);
        } else {
            assert(t.users =~= s.users);
        }
    } else {
        assert(t.users =~= s.users);
    }
}

/// Setting a nickname that no other account goes by keeps the constraints.
pub proof fn lemma_with_nickname_wf(s: StoreView, id: u128, nickname: Seq<char>)
    requires
        s.wf(),
        forall|i: int|
            0 <= i < s.users.len() && (#[trigger] s.users[i]).id != id ==> s.users[i].nickname
                != nickname,
    ensures
        s.with_nickname(id, nickname).wf(),
{
    let t = s.with_nickname(id, nickname);
    assert forall|i: int, j: int|
        0 <= i < t.users.len() && 0 <= j < t.users.len() && i != j implies {
        &&& (#[trigger] t.users[i]).nickname != (#[trigger] t.users[j]).nickname
        &&& t.users[i].email != t.users[j].email
    } by {
        assert(s.users[i].nickname != s.users[j].nickname);
        assert(s.users[i].id != s.users[j].id);
    }
    lemma_rewrite_users_wf(s, t.users);
}

/// Removing a code keeps the constraints.
pub proof fn lemma_without_code_wf(s: StoreView, code: u128)
    requires
        s.wf(),
    ensures
        s.without_code(code).wf(),
        !s.without_code(code).has_code(code),
{
    let keep = |c: ConfirmationCode| c.code != code;
    let t = s.without_code(code);
    lemma_filter_keeps_distinct(s.codes, keep, |c: ConfirmationCode| c.code);
    assert forall|i: int| 0 <= i < t.codes.len() implies t.has_user(
        (#[trigger] t.codes[i]).user_id,
    ) && t.codes[i].code != code by {
        lemma_filter_member(s.codes, keep, i);
    }
}

/// Removing an account together with its codes keeps the constraints.
pub proof fn lemma_without_user_wf(s: StoreView, id: u128)
    requires
        s.wf(),
    ensures
        s.without_user(id).wf(),
        !s.without_user(id).has_user(id),
{
    let keep_user = |u: UserView| u.id != id;
    let keep_code = |c: ConfirmationCode| c.user_id != id;
    let t = s.without_user(id);
    lemma_filter_keeps_distinct(s.users, keep_user, |u: UserView| u.id);
    lemma_filter_keeps_distinct(s.users, keep_user, |u: UserView| u.nickname);
    lemma_filter_keeps_distinct(s.users, keep_user, |u: UserView| u.email);
    lemma_filter_keeps_distinct(s.codes, keep_code, |c: ConfirmationCode| c.code);
    assert forall|i: int| 0 <= i < t.users.len() implies (#[trigger] t.users[i]).id != id by {
        lemma_filter_member(s.users, keep_user, i);
    }
    assert forall|i: int| 0 <= i < t.codes.len() implies t.has_user(
        (#[trigger] t.codes[i]).user_id,
    ) by {
        lemma_filter_member(s.codes, keep_code, i);
        let owner = t.codes[i].user_id;
        let k = s.user_index(owner);
        lemma_filter_keeps(s.users, keep_user, k);
    }
}

} // verus!
