use vstd::prelude::*;
use crate::domain::AccountStatus;
use crate::model::{
    lemma_with_attachment_wf, lemma_with_avatar_seed_wf, lemma_with_code_wf, lemma_with_confirmed,
    lemma_with_credential_wf, lemma_with_listing_wf, lemma_with_nickname_wf,
    lemma_with_status_wf, lemma_with_user_wf, lemma_without_code_wf, lemma_without_user_wf,
    Attachment, ConfirmationCode, Listing, StoreError, StoreView, User, UserView,
};
use crate::seq_facts::{lemma_filter_all, lemma_remove_is_filter};
use crate::text::str_eq;

verus! {

/// The relational store: accounts, confirmation codes, listings and
/// attachments, with the uniqueness and reference constraints that hold of
/// them at all times.
pub struct Store {
    users: Vec<User>,
    codes: Vec<ConfirmationCode>,
    listings: Vec<Listing>,
    attachments: Vec<Attachment>,
}

impl View for Store {
    type V = StoreView;

    closed spec fn view(&self) -> StoreView {
        tables(self.users@, self.codes@, self.listings@, self.attachments@)
    }
}

/// What four vectors of rows hold, as tables.
spec fn tables(
    users: Seq<User>,
    codes: Seq<ConfirmationCode>,
    listings: Seq<Listing>,
    attachments: Seq<Attachment>,
) -> StoreView {
    StoreView {
        users: users.map_values(|u: User| u@),
        codes,
        listings: listings.map_values(|l: Listing| l@),
        attachments,
    }
}

impl Store {
    /// The constraints hold of every store there is.
    #[verifier::type_invariant]
    pub open spec fn constraints_hold(&self) -> bool {
        self@.wf()
    }

    /// Hands out the rows and leaves empty tables behind.
    fn take_apart(&mut self) -> (rows: (
        Vec<User>,
        Vec<ConfirmationCode>,
        Vec<Listing>,
        Vec<Attachment>,
    ))
        ensures
            tables(rows.0@, rows.1@, rows.2@, rows.3@) == old(self)@,
            final(self)@ == StoreView::empty(),
    {
        let mut taken = Store::new();
        core::mem::swap(self, &mut taken);
        let Store { users, codes, listings, attachments } = taken;
        (users, codes, listings, attachments)
    }

    /// Makes the rows the tables.
    fn put_together(
        &mut self,
        users: Vec<User>,
        codes: Vec<ConfirmationCode>,
        listings: Vec<Listing>,
        attachments: Vec<Attachment>,
    )
        requires
            tables(users@, codes@, listings@, attachments@).wf(),
        ensures
            final(self)@ == tables(users@, codes@, listings@, attachments@),
    {
        *self = Store { users, codes, listings, attachments };
    }

    /// Empty tables.
    pub fn new() -> (store: Store)
        ensures
            store@ == StoreView::empty(),
            store@.wf(),
    {
        let store = Store {
            users: Vec::new(),
            codes: Vec::new(),
            listings: Vec::new(),
            attachments: Vec::new(),
        };
        assert(store@.users =~= Seq::empty());
        assert(store@.listings =~= Seq::empty());
        store
    }

    fn position_of_user(&self, id: u128) -> (at: Option<usize>)
        ensures
            match at {
                Some(i) => i < self@.users.len() && self@.users[i as int].id == id,
                None => !self@.has_user(id),
            },
    {
        let mut i: usize = 0;
        while i < self.users.len()
            invariant
                i <= self.users.len(),
                forall|k: int| 0 <= k < i ==> (#[trigger] self@.users[k]).id != id,
            decreases self.users.len() - i,
        {
            if self.users[i].id == id {
                return Some(i);
            }
            i += 1;
        }
        None
    }

    fn position_of_nickname(&self, nickname: &str) -> (at: Option<usize>)
        ensures
            match at {
                Some(i) => i < self@.users.len() && self@.users[i as int].nickname == nickname@,
                None => !self@.nickname_taken(nickname@),
            },
    {
        let mut i: usize = 0;
        while i < self.users.len()
            invariant
                i <= self.users.len(),
                forall|k: int| 0 <= k < i ==> (#[trigger] self@.users[k]).nickname != nickname@,
            decreases self.users.len() - i,
        {
            if str_eq(self.users[i].nickname.as_str(), nickname) {
                return Some(i);
            }
            i += 1;
        }
        None
    }

    fn position_of_email(&self, email: &str) -> (at: Option<usize>)
        ensures
            match at {
                Some(i) => i < self@.users.len() && self@.users[i as int].email == email@,
                None => !self@.email_taken(email@),
            },
    {
        let mut i: usize = 0;
        while i < self.users.len()
            invariant
                i <= self.users.len(),
                forall|k: int| 0 <= k < i ==> (#[trigger] self@.users[k]).email != email@,
            decreases self.users.len() - i,
        {
            if str_eq(self.users[i].email.as_str(), email) {
                return Some(i);
            }
            i += 1;
        }
        None
    }

    fn position_of_code(&self, code: u128) -> (at: Option<usize>)
        ensures
            match at {
                Some(i) => i < self@.codes.len() && self@.codes[i as int].code == code,
                None => !self@.has_code(code),
            },
    {
        let mut i: usize = 0;
        while i < self.codes.len()
            invariant
                i <= self.codes.len(),
                forall|k: int| 0 <= k < i ==> (#[trigger] self@.codes[k]).code != code,
            decreases self.codes.len() - i,
        {
            if self.codes[i].code == code {
                return Some(i);
            }
            i += 1;
        }
        None
    }

    fn position_of_listing(&self, id: u128) -> (at: Option<usize>)
        ensures
            match at {
                Some(i) => i < self@.listings.len() && self@.listings[i as int].id == id,
                None => !self@.has_listing(id),
            },
    {
        let mut i: usize = 0;
        while i < self.listings.len()
            invariant
                i <= self.listings.len(),
                forall|k: int| 0 <= k < i ==> (#[trigger] self@.listings[k]).id != id,
            decreases self.listings.len() - i,
        {
            if self.listings[i].id == id {
                return Some(i);
            }
            i += 1;
        }
        None
    }

    fn position_of_attachment(&self, id: u128) -> (at: Option<usize>)
        ensures
            match at {
                Some(i) => i < self@.attachments.len() && self@.attachments[i as int].id == id,
                None => !self@.has_attachment(id),
            },
    {
        let mut i: usize = 0;
        while i < self.attachments.len()
            invariant
                i <= self.attachments.len(),
                forall|k: int| 0 <= k < i ==> (#[trigger] self@.attachments[k]).id != id,
            decreases self.attachments.len() - i,
        {
            if self.attachments[i].id == id {
                return Some(i);
            }
            i += 1;
        }
        None
    }

    /// The account `id`, if there is one.
    pub fn find_user(&self, id: u128) -> (found: Option<&User>)
        ensures
            match found {
                Some(user) => self@.user(id) == Some(user@),
                None => self@.user(id).is_none(),
            },
    {
        proof {
            use_type_invariant(self);
        }
        match self.position_of_user(id) {
            Some(i) => Some(&self.users[i]),
            None => None,
        }
    }

    /// The account that goes by `nickname`, if there is one.
    pub fn find_user_by_nickname(&self, nickname: &str) -> (found: Option<&User>)
        ensures
            match found {
                Some(user) => self@.user_named(nickname@) == Some(user@),
                None => self@.user_named(nickname@).is_none(),
            },
    {
        proof {
            use_type_invariant(self);
        }
        match self.position_of_nickname(nickname) {
            Some(i) => Some(&self.users[i]),
            None => None,
        }
    }

    /// Whether some account goes by `nickname`.
    pub fn nickname_in_use(&self, nickname: &str) -> (taken: bool)
        ensures
            taken == self@.nickname_taken(nickname@),
    {
        self.position_of_nickname(nickname).is_some()
    }

    /// Whether some account was registered with `email`.
    pub fn email_in_use(&self, email: &str) -> (taken: bool)
        ensures
            taken == self@.email_taken(email@),
    {
        self.position_of_email(email).is_some()
    }

    /// The account that `code` was issued to, if the code is there.
    pub fn code_owner(&self, code: u128) -> (owner: Option<u128>)
        ensures
            owner == self@.code_owner(code),
    {
        proof {
            use_type_invariant(self);
        }
        match self.position_of_code(code) {
            Some(i) => Some(self.codes[i].user_id),
            None => None,
        }
    }

    /// Adds an account. The row is refused, and nothing changes, where its
    /// nickname, its email or its id is already in use.
    pub fn insert_user(&mut self, user: User) -> (outcome: Result<(), StoreError>)
        ensures
            final(self)@.wf(),
            outcome == old(self)@.user_conflict(user@),
            final(self)@ == if outcome.is_ok() {
                old(self)@.with_user(user@)
            } else {
                old(self)@
            },
    {
        proof {
            use_type_invariant(&*self);
        }
        if self.position_of_nickname(user.nickname.as_str()).is_some() {
            return Err(StoreError::DuplicateNickname);
        }
        if self.position_of_email(user.email.as_str()).is_some() {
            return Err(StoreError::DuplicateEmail);
        }
        if self.position_of_user(user.id).is_some() {
            return Err(StoreError::DuplicateUserId);
        }
        proof {
            lemma_with_user_wf(self@, user@);
        }
        let ghost before = self@;
        let (mut users, codes, listings, attachments) = self.take_apart();
        users.push(user);
        assert(tables(users@, codes@, listings@, attachments@).users =~= before.with_user(
            user@,
        ).users);
        self.put_together(users, codes, listings, attachments);
        Ok(())
    }

    /// Adds a confirmation code. The row is refused, and nothing changes,
    /// where the code is already there or its account is not.
    pub fn insert_code(&mut self, code: ConfirmationCode) -> (outcome: Result<(), StoreError>)
        ensures
            final(self)@.wf(),
            outcome == old(self)@.code_conflict(code),
            final(self)@ == if outcome.is_ok() {
                old(self)@.with_code(code)
            } else {
                old(self)@
            },
    {
        proof {
            use_type_invariant(&*self);
        }
        if self.position_of_code(code.code).is_some() {
            return Err(StoreError::DuplicateCode);
        }
        if self.position_of_user(code.user_id).is_none() {
            return Err(StoreError::NoSuchUser);
        }
        proof {
            lemma_with_code_wf(self@, code);
        }
        let (users, mut codes, listings, attachments) = self.take_apart();
        codes.push(code);
        self.put_together(users, codes, listings, attachments);
        Ok(())
    }

    /// Adds a listing. The row is refused, and nothing changes, where its id
    /// is already in use or its creator has no account.
    pub fn insert_listing(&mut self, listing: Listing) -> (outcome: Result<(), StoreError>)
        ensures
            final(self)@.wf(),
            outcome == old(self)@.listing_conflict(listing@),
            final(self)@ == if outcome.is_ok() {
                old(self)@.with_listing(listing@)
            } else {
                old(self)@
            },
    {
        proof {
            use_type_invariant(&*self);
        }
        if self.position_of_listing(listing.id).is_some() {
            return Err(StoreError::DuplicateListingId);
        }
        if self.position_of_user(listing.creator_id).is_none() {
            return Err(StoreError::NoSuchUser);
        }
        proof {
            lemma_with_listing_wf(self@, listing@);
        }
        let ghost before = self@;
        let (users, codes, mut listings, attachments) = self.take_apart();
        listings.push(listing);
        assert(tables(users@, codes@, listings@, attachments@).listings =~= before.with_listing(
            listing@,
        ).listings);
        self.put_together(users, codes, listings, attachments);
        Ok(())
    }

    /// Adds an attachment. The row is refused, and nothing changes, where its
    /// id is already in use or its listing is not there.
    pub fn insert_attachment(&mut self, attachment: Attachment) -> (outcome: Result<
        (),
        StoreError,
    >)
        ensures
            final(self)@.wf(),
            outcome == old(self)@.attachment_conflict(attachment),
            final(self)@ == if outcome.is_ok() {
                old(self)@.with_attachment(attachment)
            } else {
                old(self)@
            },
    {
        proof {
            use_type_invariant(&*self);
        }
        if self.position_of_attachment(attachment.id).is_some() {
            return Err(StoreError::DuplicateAttachmentId);
        }
        if self.position_of_listing(attachment.listing_id).is_none() {
            return Err(StoreError::NoSuchListing);
        }
        proof {
            lemma_with_attachment_wf(self@, attachment);
        }
        let (users, codes, listings, mut attachments) = self.take_apart();
        attachments.push(attachment);
        self.put_together(users, codes, listings, attachments);
        Ok(())
    }

    /// Removes the row of `code`, and says whether there was one.
    pub fn delete_code(&mut self, code: u128) -> (found: bool)
        ensures
            final(self)@.wf(),
            found == old(self)@.has_code(code),
            final(self)@ == old(self)@.without_code(code),
    {
        proof {
            use_type_invariant(&*self);
        }
        let ghost before = self@;
        let ghost keep = |c: ConfirmationCode| c.code != code;
        proof {
            lemma_without_code_wf(before, code);
        }
        match self.position_of_code(code) {
            Some(i) => {
                proof {
                    lemma_remove_is_filter(before.codes, i as int, keep);
                }
                let (users, mut codes, listings, attachments) = self.take_apart();
                let _ = codes.remove(i);
                self.put_together(users, codes, listings, attachments);
                true
            },
            None => {
                proof {
                    lemma_filter_all(before.codes, keep);
                }
                false
            },
        }
    }

    /// Sets the status of the account `id`, and says whether there is such an
    /// account.
    pub fn set_status(&mut self, id: u128, status: AccountStatus) -> (found: bool)
        ensures
            final(self)@.wf(),
            found == old(self)@.has_user(id),
            final(self)@ == old(self)@.with_status(id, status),
    {
        proof {
            use_type_invariant(&*self);
        }
        let ghost before = self@;
        proof {
            lemma_with_status_wf(before, id, status);
        }
        match self.position_of_user(id) {
            Some(i) => {
                let (mut users, codes, listings, attachments) = self.take_apart();
                let mut user = users.remove(i);
                user.status = status;
                users.insert(i, user);
                assert(tables(users@, codes@, listings@, attachments@).users =~= before.with_status(
                    id,
                    status,
                ).users);
                self.put_together(users, codes, listings, attachments);
                true
            },
            None => {
                assert(self@.users =~= before.with_status(id, status).users);
                false
            },
        }
    }

    /// Confirms the account `id` where it is pending, and says whether it
    /// did. An account of any other status stays as it is.
    pub fn confirm_user(&mut self, id: u128) -> (confirmed: bool)
        ensures
            final(self)@.wf(),
            confirmed == (old(self)@.user(id) matches Some(row) && row.status
                == AccountStatus::PENDING),
            final(self)@ == old(self)@.with_confirmed(id),
    {
        proof {
            use_type_invariant(&*self);
            lemma_with_confirmed(self@, id);
        }
        let pending = match self.find_user(id) {
            Some(row) => row.status == AccountStatus::PENDING,
            None => false,
        };
        if pending {
            self.set_status(id, AccountStatus::CONFIRMED);
        }
        pending
    }

    /// Sets the credential of the account `id`, and says whether there is
    /// such an account.
    pub fn set_credential(&mut self, id: u128, credential: String) -> (found: bool)
        ensures
            final(self)@.wf(),
            found == old(self)@.has_user(id),
            final(self)@ == old(self)@.with_credential(id, credential@),
    {
        proof {
            use_type_invariant(&*self);
        }
        let ghost before = self@;
        proof {
            lemma_with_credential_wf(before, id, credential@);
        }
        match self.position_of_user(id) {
            Some(i) => {
                let ghost text = credential@;
                let (mut users, codes, listings, attachments) = self.take_apart();
                let mut user = users.remove(i);
                user.hashed_password = credential;
                users.insert(i, user);
                assert(tables(users@, codes@, listings@, attachments@).users =~= before.with_credential(
                    id,
                    text,
                ).users);
                self.put_together(users, codes, listings, attachments);
                true
            },
            None => {
                assert(self@.users =~= before.with_credential(id, credential@).users);
                false
            },
        }
    }

    /// Sets the avatar seed of the account `id`, and says whether there is
    /// such an account.
    pub fn set_avatar_seed(&mut self, id: u128, seed: u128) -> (found: bool)
        ensures
            final(self)@.wf(),
            found == old(self)@.has_user(id),
            final(self)@ == old(self)@.with_avatar_seed(id, seed),
    {
        proof {
            use_type_invariant(&*self);
        }
        let ghost before = self@;
        proof {
            lemma_with_avatar_seed_wf(before, id, seed);
        }
        match self.position_of_user(id) {
            Some(i) => {
                let (mut users, codes, listings, attachments) = self.take_apart();
                let mut user = users.remove(i);
                user.avatar_seed = seed;
                users.insert(i, user);
                assert(tables(users@, codes@, listings@, attachments@).users =~= before.with_avatar_seed(
                    id,
                    seed,
                ).users);
                self.put_together(users, codes, listings, attachments);
                true
            },
            None => {
                assert(self@.users =~= before.with_avatar_seed(id, seed).users);
                false
            },
        }
    }

    /// Sets the nickname of the account `id`. The change is refused, and
    /// nothing changes, where another account goes by that nickname. Where it
    /// is not refused, the result says whether there is such an account.
    pub fn set_nickname(&mut self, id: u128, nickname: String) -> (outcome: Result<
        bool,
        StoreError,
    >)
        ensures
            final(self)@.wf(),
            outcome == if old(self)@.nickname_held_by_other(id, nickname@) {
                Err::<bool, StoreError>(StoreError::DuplicateNickname)
            } else {
                Ok::<bool, StoreError>(old(self)@.has_user(id))
            },
            final(self)@ == if outcome.is_ok() {
                old(self)@.with_nickname(id, nickname@)
            } else {
                old(self)@
            },
    {
        proof {
            use_type_invariant(&*self);
        }
        let ghost before = self@;
        match self.position_of_nickname(nickname.as_str()) {
            Some(k) => {
                if self.users[k].id != id {
                    return Err(StoreError::DuplicateNickname);
                }
            },
            None => {},
        }
        proof {
            lemma_with_nickname_wf(before, id, nickname@);
        }
        match self.position_of_user(id) {
            Some(i) => {
                let ghost text = nickname@;
                let (mut users, codes, listings, attachments) = self.take_apart();
                let mut user = users.remove(i);
                user.nickname = nickname;
                users.insert(i, user);
                assert(tables(users@, codes@, listings@, attachments@).users =~= before.with_nickname(
                    id,
                    text,
                ).users);
                self.put_together(users, codes, listings, attachments);
                Ok(true)
            },
            None => {
                assert(self@.users =~= before.with_nickname(id, nickname@).users);
                Ok(false)
            },
        }
    }

    /// Removes the account `id` together with the confirmation codes held for
    /// it, and says whether there was such an account. Listings and
    /// attachments are left as they are.
    pub fn delete_user(&mut self, id: u128) -> (found: bool)
        ensures
            final(self)@.wf(),
            found == old(self)@.has_user(id),
            final(self)@ == old(self)@.without_user(id),
    {
        proof {
            use_type_invariant(&*self);
        }
        let ghost before = self@;
        let ghost keep_user = |u: UserView| u.id != id;
        let ghost keep_code = |c: ConfirmationCode| c.user_id != id;
        proof {
            lemma_without_user_wf(before, id);
        }
        let at = self.position_of_user(id);
        let (mut users, codes, listings, attachments) = self.take_apart();
        let mut kept: Vec<ConfirmationCode> = Vec::new();
        let mut k: usize = 0;
        while k < codes.len()
            invariant
                k <= codes.len(),
                codes@ == before.codes,
                kept@ == before.codes.take(k as int).filter(keep_code),
                keep_code == |c: ConfirmationCode| c.user_id != id,
            decreases codes.len() - k,
        {
            let row = codes[k];
            proof {
                reveal(Seq::filter);
                assert(before.codes.take(k + 1).drop_last() =~= before.codes.take(k as int));
            }
            if row.user_id != id {
                kept.push(row);
            }
            k += 1;
        }
        proof {
            assert(before.codes.take(k as int) =~= before.codes);
        }
        let found = match at {
            Some(i) => {
                proof {
                    lemma_remove_is_filter(before.users, i as int, keep_user);
                }
                let _ = users.remove(i);
                assert(tables(users@, kept@, listings@, attachments@).users
                    =~= before.users.remove(i as int));
                true
            },
            None => {
                proof {
                    lemma_filter_all(before.users, keep_user);
                }
                false
            },
        };
        self.put_together(users, kept, listings, attachments);
        found
    }

    /// The confirmation codes that are held for the account `user_id`, in
    /// insertion order.
    pub fn codes_of(&self, user_id: u128) -> (rows: Vec<ConfirmationCode>)
        ensures
            rows@ == self@.codes_of(user_id),
    {
        let ghost keep = |c: ConfirmationCode| c.user_id == user_id;
        let mut rows: Vec<ConfirmationCode> = Vec::new();
        let mut k: usize = 0;
        while k < self.codes.len()
            invariant
                k <= self.codes.len(),
                rows@ == self@.codes.take(k as int).filter(keep),
                keep == |c: ConfirmationCode| c.user_id == user_id,
            decreases self.codes.len() - k,
        {
            let row = self.codes[k];
            proof {
                reveal(Seq::filter);
                assert(self@.codes.take(k + 1).drop_last() =~= self@.codes.take(k as int));
            }
            if row.user_id == user_id {
                rows.push(row);
            }
            k += 1;
        }
        proof {
            assert(self@.codes.take(k as int) =~= self@.codes);
        }
        rows
    }

    /// The attachments of the listing `listing_id`, in insertion order.
    pub fn attachments_of(&self, listing_id: u128) -> (rows: Vec<Attachment>)
        ensures
            rows@ == self@.attachments_of(listing_id),
    {
        let ghost keep = |a: Attachment| a.listing_id == listing_id;
        let mut rows: Vec<Attachment> = Vec::new();
        let mut k: usize = 0;
        while k < self.attachments.len()
            invariant
                k <= self.attachments.len(),
                rows@ == self@.attachments.take(k as int).filter(keep),
                keep == |a: Attachment| a.listing_id == listing_id,
            decreases self.attachments.len() - k,
        {
            let row = self.attachments[k];
            proof {
                reveal(Seq::filter);
                assert(self@.attachments.take(k + 1).drop_last() =~= self@.attachments.take(
                    k as int,
                ));
            }
            if row.listing_id == listing_id {
                rows.push(row);
            }
            k += 1;
        }
        proof {
            assert(self@.attachments.take(k as int) =~= self@.attachments);
        }
        rows
    }

    /// The listing `id`, if there is one.
    pub fn find_listing(&self, id: u128) -> (found: Option<&Listing>)
        ensures
            match found {
                Some(listing) => self@.listing(id) == Some(listing@),
                None => self@.listing(id).is_none(),
            },
    {
        proof {
            use_type_invariant(self);
        }
        match self.position_of_listing(id) {
            Some(i) => Some(&self.listings[i]),
            None => None,
        }
    }

    /// How many accounts there are.
    pub fn user_count(&self) -> (count: usize)
        ensures
            count == self@.users.len(),
    {
        self.users.len()
    }

    /// How many confirmation codes there are.
    pub fn code_count(&self) -> (count: usize)
        ensures
            count == self@.codes.len(),
    {
        self.codes.len()
    }

    /// How many listings there are.
    pub fn listing_count(&self) -> (count: usize)
        ensures
            count == self@.listings.len(),
    {
        self.listings.len()
    }

    /// How many attachments there are.
    pub fn attachment_count(&self) -> (count: usize)
        ensures
            count == self@.attachments.len(),
    {
        self.attachments.len()
    }
}

} // verus!
