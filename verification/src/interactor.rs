//! The use cases. Each owns one repository, fixed when it is built, and
//! holds the rules of its case: who may see what, and which failure is
//! which.

use vstd::prelude::*;
use crate::domain::AuthorDetails;
use crate::domain::AuthorDetailsView;
use crate::domain::AuthorRecord;
use crate::domain::AuthorRecordView;
use crate::domain::BookRecord;
use crate::domain::BookRecordView;
use crate::domain::StoreFailure;
use crate::domain::UserIdentity;
use crate::domain::UserIdentityView;
use crate::domain::UserRecord;
use crate::domain::UserRecordView;
use crate::repository::AuthorRepository;
use crate::repository::BookRepository;
use crate::repository::UserRepository;
use crate::text::same_text;

verus! {

/// Why a login failed.
#[derive(Clone, Copy, Debug, PartialEq, Eq, Structural)]
pub enum AuthError {
    /// Nobody logs in under the identifier.
    NotFound,
    /// The credential is not the one on record.
    CredentialMismatch,
    /// The repository could not answer.
    StoreUnavailable,
}

/// Why an author was not shown.
#[derive(Clone, Copy, Debug, PartialEq, Eq, Structural)]
pub enum ShowAuthorError {
    /// No author is stored under the id.
    NotFound,
    /// The author is stored, and belongs to another subject.
    Forbidden,
    /// The repository could not answer.
    StoreUnavailable,
}

/// Why a book was not shown.
#[derive(Clone, Copy, Debug, PartialEq, Eq, Structural)]
pub enum ShowBookError {
    /// No book is stored under the id.
    NotFound,
    /// The repository could not answer.
    StoreUnavailable,
}

/// What a repository answered, by content.
pub open spec fn found_view<T: View>(found: Result<Option<T>, StoreFailure>) -> Result<
    Option<T::V>,
    StoreFailure,
> {
    match found {
        Ok(Some(record)) => Ok(Some(record@)),
        Ok(None) => Ok(None),
        Err(e) => Err(e),
    }
}

/// What a use case returned, by content.
pub open spec fn outcome_view<T: View, E>(outcome: Result<T, E>) -> Result<T::V, E> {
    match outcome {
        Ok(value) => Ok(value@),
        Err(e) => Err(e),
    }
}

/// The rule of a login: the user must exist and the presented credential
/// must be the one on record, character for character. In what form a
/// credential is kept on record is the matter of whoever fills the store.
pub open spec fn login_verdict(
    credential: Seq<char>,
    found: Result<Option<UserRecordView>, StoreFailure>,
) -> Result<UserIdentityView, AuthError> {
    match found {
        Err(_) => Err(AuthError::StoreUnavailable),
        Ok(None) => Err(AuthError::NotFound),
        Ok(Some(user)) => if user.credential == credential {
            Ok(UserIdentityView { id: user.id, login: user.login })
        } else {
            Err(AuthError::CredentialMismatch)
        },
    }
}

/// The rule of showing an author: the author must exist and belong to the
/// subject who asks. An author of another subject is refused, not hidden
/// as missing, and nothing of the entry is given out.
pub open spec fn show_author_verdict(
    subject: Seq<char>,
    found: Result<Option<AuthorRecordView>, StoreFailure>,
) -> Result<AuthorDetailsView, ShowAuthorError> {
    match found {
        Err(_) => Err(ShowAuthorError::StoreUnavailable),
        Ok(None) => Err(ShowAuthorError::NotFound),
        Ok(Some(author)) => if author.owner == subject {
            Ok(AuthorDetailsView { id: author.id, name: author.name })
        } else {
            Err(ShowAuthorError::Forbidden)
        },
    }
}

/// The rule of showing a book: the book must exist.
pub open spec fn show_book_verdict(found: Result<Option<BookRecordView>, StoreFailure>) -> Result<
    BookRecordView,
    ShowBookError,
> {
    match found {
        Err(_) => Err(ShowBookError::StoreUnavailable),
        Ok(None) => Err(ShowBookError::NotFound),
        Ok(Some(book)) => Ok(book),
    }
}

/// Decides a login on what the repository answered.
pub fn decide_login(credential: &str, found: Result<Option<UserRecord>, StoreFailure>) -> (out:
    Result<UserIdentity, AuthError>)
    ensures
        outcome_view(out) == login_verdict(credential@, found_view(found)),
{
    match found {
        Err(_) => Err(AuthError::StoreUnavailable),
        Ok(None) => Err(AuthError::NotFound),
        Ok(Some(user)) => {
            if same_text(user.credential.as_str(), credential) {
                Ok(UserIdentity { id: user.id, login: user.login })
            } else {
                Err(AuthError::CredentialMismatch)
            }
        },
    }
}

/// Decides whether `subject` sees the author that the repository found.
pub fn decide_show_author(subject: &str, found: Result<Option<AuthorRecord>, StoreFailure>) -> (out:
    Result<AuthorDetails, ShowAuthorError>)
    ensures
        outcome_view(out) == show_author_verdict(subject@, found_view(found)),
{
    match found {
        Err(_) => Err(ShowAuthorError::StoreUnavailable),
        Ok(None) => Err(ShowAuthorError::NotFound),
        Ok(Some(author)) => {
            if same_text(author.owner.as_str(), subject) {
                Ok(AuthorDetails { id: author.id, name: author.name })
            } else {
                Err(ShowAuthorError::Forbidden)
            }
        },
    }
}

/// Decides what to show of the book that the repository found.
pub fn decide_show_book(found: Result<Option<BookRecord>, StoreFailure>) -> (out: Result<
    BookRecord,
    ShowBookError,
>)
    ensures
        outcome_view(out) == show_book_verdict(found_view(found)),
{
    match found {
        Err(_) => Err(ShowBookError::StoreUnavailable),
        Ok(None) => Err(ShowBookError::NotFound),
        Ok(Some(book)) => Ok(book),
    }
}

/// The login use case, as the layer above sees it.
pub trait LoginUseCase {
    /// Logs `identifier` in with `credential`.
    fn login(&self, identifier: &str, credential: &str) -> Result<UserIdentity, AuthError>;
}

/// The use case of showing an author, as the layer above sees it.
pub trait ShowAuthorUseCase {
    /// Shows the author `author_id` to `subject`. The subject is handed in
    /// by the caller: a use case reads no ambient request state.
    fn show_author(&self, subject: &str, author_id: &str) -> Result<AuthorDetails, ShowAuthorError>;
}

/// The use case of showing a book, as the layer above sees it.
pub trait ShowBookUseCase {
    /// Shows the book `book_id`.
    fn show_book(&self, book_id: &str) -> Result<BookRecord, ShowBookError>;
}

/// Login over any user repository.
pub struct LoginInteractor<R> {
    repository: R,
}

impl<R> LoginInteractor<R> {
    /// The repository that this interactor owns.
    pub closed spec fn repository(&self) -> R {
        self.repository
    }

    /// Binds the use case to its repository.
    pub fn new(repository: R) -> (out: Self)
        ensures
            out.repository() == repository,
    {
        LoginInteractor { repository }
    }
}

impl<R: UserRepository> LoginUseCase for LoginInteractor<R> {
    /// Asks the repository for the user who logs in as `identifier` and
    /// decides on the answer.
    fn login(&self, identifier: &str, credential: &str) -> (out: Result<UserIdentity, AuthError>)
        ensures
            exists|found: Result<Option<UserRecord>, StoreFailure>|
                #[trigger] call_ensures(R::find_by_login, (&self.repository(), identifier), found)
                    && outcome_view(out) == login_verdict(credential@, found_view(found)),
    {
        let found = self.repository.find_by_login(identifier);
        let ghost answered = found;
        let out = decide_login(credential, found);
        assert(call_ensures(R::find_by_login, (&self.repository(), identifier), answered));
        out
    }
}

/// Showing an author over any author repository.
pub struct ShowAuthorInteractor<R> {
    repository: R,
}

impl<R> ShowAuthorInteractor<R> {
    /// The repository that this interactor owns.
    pub closed spec fn repository(&self) -> R {
        self.repository
    }

    /// Binds the use case to its repository.
    pub fn new(repository: R) -> (out: Self)
        ensures
            out.repository() == repository,
    {
        ShowAuthorInteractor { repository }
    }
}

impl<R: AuthorRepository> ShowAuthorUseCase for ShowAuthorInteractor<R> {
    /// Asks the repository for the author `author_id` and decides on the
    /// answer.
    fn show_author(&self, subject: &str, author_id: &str) -> (out: Result<
        AuthorDetails,
        ShowAuthorError,
    >)
        ensures
            exists|found: Result<Option<AuthorRecord>, StoreFailure>|
                #[trigger] call_ensures(R::find_by_id, (&self.repository(), author_id), found)
                    && outcome_view(out) == show_author_verdict(subject@, found_view(found)),
    {
        let found = self.repository.find_by_id(author_id);
        let ghost answered = found;
        let out = decide_show_author(subject, found);
        assert(call_ensures(R::find_by_id, (&self.repository(), author_id), answered));
        out
    }
}

/// Showing a book over any book repository.
pub struct ShowBookInteractor<R> {
    repository: R,
}

impl<R> ShowBookInteractor<R> {
    /// The repository that this interactor owns.
    pub closed spec fn repository(&self) -> R {
        self.repository
    }

    /// Binds the use case to its repository.
    pub fn new(repository: R) -> (out: Self)
        ensures
            out.repository() == repository,
    {
        ShowBookInteractor { repository }
    }
}

impl<R: BookRepository> ShowBookUseCase for ShowBookInteractor<R> {
    /// Asks the repository for the book `book_id` and decides on the
    /// answer.
    fn show_book(&self, book_id: &str) -> (out: Result<BookRecord, ShowBookError>)
        ensures
            exists|found: Result<Option<BookRecord>, StoreFailure>|
                #[trigger] call_ensures(R::find_by_id, (&self.repository(), book_id), found)
                    && outcome_view(out) == show_book_verdict(found_view(found)),
    {
        let found = self.repository.find_by_id(book_id);
        let ghost answered = found;
        let out = decide_show_book(found);
        assert(call_ensures(R::find_by_id, (&self.repository(), book_id), answered));
        out
    }
}

/// An author that belongs to another subject is refused with `Forbidden`,
/// though the repository found it, and a refusal carries nothing of the
/// entry.
pub proof fn law_foreign_author_is_refused(subject: Seq<char>, author: AuthorRecordView)
    requires
        author.owner != subject,
    ensures
        show_author_verdict(subject, Ok(Some(author))) == Err::<AuthorDetailsView, ShowAuthorError>(
            ShowAuthorError::Forbidden,
        ),
{
}

/// An author is shown to its owner only, and as stored: whenever details
/// come out, the repository found an author of this subject with this id
/// and name.
pub proof fn law_shown_author_belongs_to_subject(
    subject: Seq<char>,
    found: Result<Option<AuthorRecordView>, StoreFailure>,
)
    ensures
        show_author_verdict(subject, found) matches Ok(details) ==> found matches Ok(Some(author))
            && author.owner == subject && author.id == details.id && author.name == details.name,
{
}

} // verus!
