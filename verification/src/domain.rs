//! The values that use cases and repositories exchange. None of them knows
//! how it is stored.

use vstd::prelude::*;

verus! {

/// A repository could not answer: the store is down, or no connection
/// could be had in time.
#[derive(Clone, Copy, Debug, PartialEq, Eq, Structural)]
pub struct StoreFailure;

/// An author as stored, with the subject that owns the entry.
pub struct AuthorRecord {
    pub id: String,
    pub name: String,
    pub owner: String,
}

/// The mathematical content of an [`AuthorRecord`].
pub struct AuthorRecordView {
    pub id: Seq<char>,
    pub name: Seq<char>,
    pub owner: Seq<char>,
}

impl View for AuthorRecord {
    type V = AuthorRecordView;

    open spec fn view(&self) -> AuthorRecordView {
        AuthorRecordView { id: self.id@, name: self.name@, owner: self.owner@ }
    }
}

/// What a subject gets to see of an author.
pub struct AuthorDetails {
    pub id: String,
    pub name: String,
}

/// The mathematical content of an [`AuthorDetails`].
pub struct AuthorDetailsView {
    pub id: Seq<char>,
    pub name: Seq<char>,
}

impl View for AuthorDetails {
    type V = AuthorDetailsView;

    open spec fn view(&self) -> AuthorDetailsView {
        AuthorDetailsView { id: self.id@, name: self.name@ }
    }
}

/// A book as stored.
pub struct BookRecord {
    pub id: String,
    pub title: String,
}

/// The mathematical content of a [`BookRecord`].
pub struct BookRecordView {
    pub id: Seq<char>,
    pub title: Seq<char>,
}

impl View for BookRecord {
    type V = BookRecordView;

    open spec fn view(&self) -> BookRecordView {
        BookRecordView { id: self.id@, title: self.title@ }
    }
}

/// A user as stored: the identifier under which the user logs in and the
/// credential on record.
pub struct UserRecord {
    pub id: String,
    pub login: String,
    pub credential: String,
}

/// The mathematical content of a [`UserRecord`].
pub struct UserRecordView {
    pub id: Seq<char>,
    pub login: Seq<char>,
    pub credential: Seq<char>,
}

impl View for UserRecord {
    type V = UserRecordView;

    open spec fn view(&self) -> UserRecordView {
        UserRecordView { id: self.id@, login: self.login@, credential: self.credential@ }
    }
}

/// Who a login turned out to be.
pub struct UserIdentity {
    pub id: String,
    pub login: String,
}

/// The mathematical content of a [`UserIdentity`].
pub struct UserIdentityView {
    pub id: Seq<char>,
    pub login: Seq<char>,
}

impl View for UserIdentity {
    type V = UserIdentityView;

    open spec fn view(&self) -> UserIdentityView {
        UserIdentityView { id: self.id@, login: self.login@ }
    }
}

} // verus!
