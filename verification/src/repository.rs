//! The ports through which use cases reach persistence. A port names the
//! queries a use case needs and nothing of the store behind it: inputs and
//! outputs are domain values.
//!
//! The methods carry no contract. What a use case returns is stated for
//! every answer a repository may give.

use vstd::prelude::*;
use crate::domain::AuthorRecord;
use crate::domain::BookRecord;
use crate::domain::StoreFailure;
use crate::domain::UserRecord;

verus! {

/// The queries about users.
pub trait UserRepository {
    /// The user who logs in as `login`, if there is one.
    fn find_by_login(&self, login: &str) -> Result<Option<UserRecord>, StoreFailure>;
}

/// The queries about authors.
pub trait AuthorRepository {
    /// The author stored under `author_id`, whoever owns the entry.
    fn find_by_id(&self, author_id: &str) -> Result<Option<AuthorRecord>, StoreFailure>;
}

/// The queries about books.
pub trait BookRepository {
    /// The book stored under `book_id`.
    fn find_by_id(&self, book_id: &str) -> Result<Option<BookRecord>, StoreFailure>;
}

} // verus!
