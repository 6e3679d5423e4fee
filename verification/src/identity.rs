use vstd::prelude::*;
use crate::domain::AccountStatus;
use crate::ids::{parse_id, uuid_parse};
use crate::model::{StoreView, User, UserView};
use crate::store::Store;

verus! {

/// Who a request comes from, as far as its session tells.
#[derive(Debug, Clone, PartialEq, Eq)]
pub enum LocalUser {
    /// No session, or one that names no account.
    Anonymous,
    /// The session names an account whose email is not confirmed yet.
    Pending,
    /// The session names an account that may act.
    Authenticated { id: u128, nickname: String, avatar_seed: u128 },
}

/// What a `LocalUser` holds.
pub enum LocalUserView {
    Anonymous,
    Pending,
    Authenticated { id: u128, nickname: Seq<char>, avatar_seed: u128 },
}

impl View for LocalUser {
    type V = LocalUserView;

    open spec fn view(&self) -> LocalUserView {
        match self {
            LocalUser::Anonymous => LocalUserView::Anonymous,
            LocalUser::Pending => LocalUserView::Pending,
            LocalUser::Authenticated { id, nickname, avatar_seed } => LocalUserView::Authenticated {
                id: *id,
                nickname: nickname@,
                avatar_seed: *avatar_seed,
            },
        }
    }
}

/// The identity that an account row stands for: none is anonymous, an
/// unconfirmed one is pending, any other is authenticated.
pub open spec fn classify(row: Option<UserView>) -> LocalUserView {
    match row {
        None => LocalUserView::Anonymous,
        Some(user) => if user.status == AccountStatus::PENDING {
            LocalUserView::Pending
        } else {
            LocalUserView::Authenticated {
                id: user.id,
                nickname: user.nickname,
                avatar_seed: user.avatar_seed,
            }
        },
    }
}

/// The identity that a session token resolves to against the tables. A
/// missing token, one that spells no id and one whose id names no account are
/// all anonymous.
pub open spec fn resolve(token: Option<Seq<char>>, store: StoreView) -> LocalUserView {
    match token {
        None => LocalUserView::Anonymous,
        Some(text) => match uuid_parse(text) {
            None => LocalUserView::Anonymous,
            Some(id) => classify(store.user(id)),
        },
    }
}

impl LocalUser {
    /// The identity that an account row stands for.
    pub fn from_row(row: Option<&User>) -> (who: LocalUser)
        ensures
            who@ == classify(
                match row {
                    Some(user) => Some(user@),
                    None => None,
                },
            ),
    {
        match row {
            None => LocalUser::Anonymous,
            Some(user) => {
                if user.status == AccountStatus::PENDING {
                    LocalUser::Pending
                } else {
                    LocalUser::Authenticated {
                        id: user.id,
                        nickname: user.nickname.clone(),
                        avatar_seed: user.avatar_seed,
                    }
                }
            },
        }
    }

    /// Resolves the token that a request's session carries, if it carries
    /// one, to an identity. This never fails: whatever cannot be resolved is
    /// anonymous.
    pub fn from_request(token: Option<&str>, store: &Store) -> (who: LocalUser)
        ensures
            who@ == resolve(
                match token {
                    Some(text) => Some(text@),
                    None => None,
                },
                store@,
            ),
    {
        match token {
            None => LocalUser::Anonymous,
            Some(text) => match parse_id(text) {
                None => LocalUser::Anonymous,
                Some(id) => LocalUser::from_row(store.find_user(id)),
            },
        }
    }

    /// The id of the account, where the identity is authenticated.
    pub fn authenticated_id(&self) -> (id: Option<u128>)
        ensures
            id == self@.authenticated_id(),
    {
        match self {
            LocalUser::Authenticated { id, .. } => Some(*id),
            _ => None,
        }
    }
}

impl LocalUserView {
    /// The id of the account, where the identity is authenticated.
    pub open spec fn authenticated_id(self) -> Option<u128> {
        match self {
            LocalUserView::Authenticated { id, .. } => Some(id),
            _ => None,
        }
    }
}

} // verus!
