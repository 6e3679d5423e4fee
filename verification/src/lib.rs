//! The account lifecycle and the listing pipeline of a community classifieds
//! platform, as operations on tables of rows: registration with a one-time
//! confirmation code, confirmation, login, settings, deletion, the submission
//! of a listing and the best-effort attachment of its files.
//!
//! Every operation states what it returns and how it leaves the tables, and
//! the laws that relate the operations are proved in [`laws`].

pub mod auth;
pub mod credential;
pub mod domain;
pub mod identity;
pub mod ids;
pub mod index;
pub mod laws;
pub mod model;
pub mod password;
pub mod reply;
pub mod seq_facts;
pub mod store;
pub mod submit;
pub mod text;

pub use domain::{AccountStatus, Campus, DecodeError, Type};
pub use identity::LocalUser;
pub use index::PaginationQuery;
