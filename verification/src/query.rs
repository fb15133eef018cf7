//! The entry points of the query endpoint. A field reads the identity of
//! its caller from the request's scope, asks the query service, and turns
//! what comes back into the shapes and errors that callers see.

use vstd::prelude::*;
use crate::domain::AuthorDetails;
use crate::domain::AuthorDetailsView;
use crate::domain::BookRecord;
use crate::domain::BookRecordView;
use crate::domain::UserIdentity;
use crate::domain::UserIdentityView;
use crate::extractor::Rejection;
use crate::extractor::RequestScope;
use crate::interactor::outcome_view;
use crate::interactor::AuthError;
use crate::interactor::ShowAuthorError;
use crate::interactor::ShowBookError;
use crate::object::Author;
use crate::object::AuthorView;
use crate::object::Book;
use crate::object::BookView;
use crate::query_service::QueryService;
use crate::verification::Claims;

verus! {

/// The errors that callers see. What went wrong inside is never spelled
/// out to them beyond these four kinds.
#[derive(Clone, Copy, Debug, PartialEq, Eq, Structural)]
pub enum PresentationalError {
    /// No credential, or one that was refused.
    Unauthenticated,
    /// A valid identity without the right to what was asked for.
    Authorization,
    /// What was asked for does not exist.
    NotFound,
    /// The store could not answer; the call may be tried again.
    StoreUnavailable,
}

impl PresentationalError {
    /// The message that goes out to the caller.
    pub fn message(&self) -> (out: &'static str)
        ensures
            out@ == match *self {
                PresentationalError::Unauthenticated => "authentication required"@,
                PresentationalError::Authorization => "not authorized"@,
                PresentationalError::NotFound => "not found"@,
                PresentationalError::StoreUnavailable => "service temporarily unavailable"@,
            },
    {
        match self {
            PresentationalError::Unauthenticated => "authentication required",
            PresentationalError::Authorization => "not authorized",
            PresentationalError::NotFound => "not found",
            PresentationalError::StoreUnavailable => "service temporarily unavailable",
        }
    }

    /// Whether the caller may try the same call again.
    pub fn retryable(&self) -> (out: bool)
        ensures
            out == (*self == PresentationalError::StoreUnavailable),
    {
        match self {
            PresentationalError::StoreUnavailable => true,
            _ => false,
        }
    }
}

/// What a caller is told of a rejected request: the same for a missing
/// credential and for every kind of refusal.
pub fn rejection_to_caller(rejection: Rejection) -> (out: PresentationalError)
    ensures
        out == PresentationalError::Unauthenticated,
{
    PresentationalError::Unauthenticated
}

/// What a caller is told of a failed login. An unknown identifier and a
/// wrong credential look the same, so that nobody learns from the answer
/// which identifiers exist.
pub open spec fn login_error_to_caller(error: AuthError) -> PresentationalError {
    match error {
        AuthError::NotFound => PresentationalError::Unauthenticated,
        AuthError::CredentialMismatch => PresentationalError::Unauthenticated,
        AuthError::StoreUnavailable => PresentationalError::StoreUnavailable,
    }
}

/// What a caller is told of an author that is not shown. A missing author
/// and an author of somebody else are told apart.
pub open spec fn author_error_to_caller(error: ShowAuthorError) -> PresentationalError {
    match error {
        ShowAuthorError::NotFound => PresentationalError::NotFound,
        ShowAuthorError::Forbidden => PresentationalError::Authorization,
        ShowAuthorError::StoreUnavailable => PresentationalError::StoreUnavailable,
    }
}

/// What a caller is told of a book that is not shown.
pub open spec fn book_error_to_caller(error: ShowBookError) -> PresentationalError {
    match error {
        ShowBookError::NotFound => PresentationalError::NotFound,
        ShowBookError::StoreUnavailable => PresentationalError::StoreUnavailable,
    }
}

/// The answer of the `author` field to what the query service returned.
pub open spec fn author_answer(outcome: Result<AuthorDetailsView, ShowAuthorError>) -> Result<
    AuthorView,
    PresentationalError,
> {
    match outcome {
        Ok(details) => Ok(AuthorView { id: details.id, name: details.name }),
        Err(e) => Err(author_error_to_caller(e)),
    }
}

/// The answer of the `book` field to what the query service returned.
pub open spec fn book_answer(outcome: Result<BookRecordView, ShowBookError>) -> Result<
    BookView,
    PresentationalError,
> {
    match outcome {
        Ok(book) => Ok(BookView { id: book.id, title: book.title }),
        Err(e) => Err(book_error_to_caller(e)),
    }
}

/// The answer of the `login` field to what the query service returned.
pub open spec fn login_answer(outcome: Result<UserIdentityView, AuthError>) -> Result<
    Seq<char>,
    PresentationalError,
> {
    match outcome {
        Ok(identity) => Ok(identity.id),
        Err(e) => Err(login_error_to_caller(e)),
    }
}

/// Turns the outcome of showing an author into the field's answer.
pub fn present_author(outcome: Result<AuthorDetails, ShowAuthorError>) -> (out: Result<
    Author,
    PresentationalError,
>)
    ensures
        outcome_view(out) == author_answer(outcome_view(outcome)),
{
    match outcome {
        Ok(details) => Ok(Author::new(details.id, details.name)),
        Err(ShowAuthorError::NotFound) => Err(PresentationalError::NotFound),
        Err(ShowAuthorError::Forbidden) => Err(PresentationalError::Authorization),
        Err(ShowAuthorError::StoreUnavailable) => Err(PresentationalError::StoreUnavailable),
    }
}

/// Turns the outcome of showing a book into the field's answer.
pub fn present_book(outcome: Result<BookRecord, ShowBookError>) -> (out: Result<
    Book,
    PresentationalError,
>)
    ensures
        outcome_view(out) == book_answer(outcome_view(outcome)),
{
    match outcome {
        Ok(book) => Ok(Book::new(book.id, book.title)),
        Err(ShowBookError::NotFound) => Err(PresentationalError::NotFound),
        Err(ShowBookError::StoreUnavailable) => Err(PresentationalError::StoreUnavailable),
    }
}

/// The user id, or the error.
pub open spec fn id_view(outcome: Result<String, PresentationalError>) -> Result<
    Seq<char>,
    PresentationalError,
> {
    match outcome {
        Ok(id) => Ok(id@),
        Err(e) => Err(e),
    }
}

/// Turns the outcome of a login into the field's answer: the user's id.
pub fn present_login(outcome: Result<UserIdentity, AuthError>) -> (out: Result<
    String,
    PresentationalError,
>)
    ensures
        id_view(out) == login_answer(outcome_view(outcome)),
{
    match outcome {
        Ok(identity) => Ok(identity.id),
        Err(AuthError::NotFound) => Err(PresentationalError::Unauthenticated),
        Err(AuthError::CredentialMismatch) => Err(PresentationalError::Unauthenticated),
        Err(AuthError::StoreUnavailable) => Err(PresentationalError::StoreUnavailable),
    }
}

/// The identity that a protected field acts on: the claims of the scope,
/// or `Unauthenticated` for a scope without claims. A protected field asks
/// this before anything else.
pub fn identity_of(scope: &RequestScope) -> (out: Result<&Claims, PresentationalError>)
    ensures
        match out {
            Ok(claims) => scope.subject() == Some(claims@),
            Err(e) => e == PresentationalError::Unauthenticated && scope.subject() is None,
        },
{
    match scope.claims() {
        Some(claims) => Ok(claims),
        None => Err(PresentationalError::Unauthenticated),
    }
}

/// The root of the query endpoint, over any query service.
pub struct Query<QS> {
    query_service: QS,
}

impl<QS> Query<QS> {
    /// The query service that this root owns.
    pub closed spec fn service(&self) -> QS {
        self.query_service
    }

    pub fn new(query_service: QS) -> (out: Self)
        ensures
            out.service() == query_service,
    {
        Query { query_service }
    }
}

impl<QS: QueryService> Query<QS> {
    /// The field `book`: open to everybody. The query service is asked for
    /// the book `id`, and what it returns is presented.
    pub fn book(&self, id: String) -> (out: Result<Book, PresentationalError>)
        ensures
            exists|book_id: &str, outcome: Result<BookRecord, ShowBookError>|
                book_id@ == id@ && #[trigger] call_ensures(
                    QS::find_book_by_id,
                    (&self.service(), book_id),
                    outcome,
                ) && outcome_view(out) == book_answer(outcome_view(outcome)),
    {
        let book_id = id.as_str();
        let outcome = self.query_service.find_book_by_id(book_id);
        let ghost answered = outcome;
        let out = present_book(outcome);
        assert(call_ensures(QS::find_book_by_id, (&self.service(), book_id), answered));
        out
    }

    /// The field `author`: for authenticated callers. The scope is looked
    /// at first. Without claims in it the field answers `Unauthenticated`
    /// and the query service is not called; with claims, the service is
    /// asked once, on behalf of the subject of the claims.
    pub fn author(&self, scope: &RequestScope, author_id: String) -> (out: Result<
        Author,
        PresentationalError,
    >)
        ensures
            scope.subject() is None ==> out == Err::<Author, PresentationalError>(
                PresentationalError::Unauthenticated,
            ),
            scope.subject() matches Some(identity) ==> exists|
                subject: &str,
                id: &str,
                outcome: Result<AuthorDetails, ShowAuthorError>,
            |
                subject@ == identity && id@ == author_id@ && #[trigger] call_ensures(
                    QS::find_author_by_id,
                    (&self.service(), subject, id),
                    outcome,
                ) && outcome_view(out) == author_answer(outcome_view(outcome)),
    {
        let claims = match identity_of(scope) {
            Ok(claims) => claims,
            Err(e) => { return Err(e); },
        };
        let subject = claims.subject();
        let id = author_id.as_str();
        let outcome = self.query_service.find_author_by_id(subject, id);
        let ghost answered = outcome;
        let out = present_author(outcome);
        assert(call_ensures(QS::find_author_by_id, (&self.service(), subject, id), answered));
        out
    }

    /// The field `login`: answers with the id of the user, or with one and
    /// the same error for an unknown identifier and a wrong credential.
    pub fn login(&self, identifier: String, credential: String) -> (out: Result<
        String,
        PresentationalError,
    >)
        ensures
            exists|name: &str, secret: &str, outcome: Result<UserIdentity, AuthError>|
                name@ == identifier@ && secret@ == credential@ && #[trigger] call_ensures(
                    QS::login,
                    (&self.service(), name, secret),
                    outcome,
                ) && id_view(out) == login_answer(outcome_view(outcome)),
            out matches Err(e) ==> e == PresentationalError::Unauthenticated || e
                == PresentationalError::StoreUnavailable,
    {
        let name = identifier.as_str();
        let secret = credential.as_str();
        let outcome = self.query_service.login(name, secret);
        let ghost answered = outcome;
        let out = present_login(outcome);
        assert(call_ensures(QS::login, (&self.service(), name, secret), answered));
        out
    }
}

/// A caller whose login failed for want of the user learns nothing that a
/// caller with a wrong credential does not learn.
pub proof fn law_login_failures_look_alike()
    ensures
        login_answer(Err(AuthError::NotFound)) == login_answer(Err(AuthError::CredentialMismatch)),
{
}

/// An author of the subject who asks reaches the caller with id and name
/// as stored.
pub proof fn law_own_author_reaches_caller(author: crate::domain::AuthorRecordView)
    ensures
        author_answer(crate::interactor::show_author_verdict(author.owner, Ok(Some(author)))) == Ok::<
            AuthorView,
            PresentationalError,
        >(AuthorView { id: author.id, name: author.name }),
{
}

/// An author of somebody else reaches the caller as an authorization
/// failure: no field of the author goes out.
pub proof fn law_foreign_author_reaches_caller_as_refusal(
    subject: Seq<char>,
    author: crate::domain::AuthorRecordView,
)
    requires
        author.owner != subject,
    ensures
        author_answer(crate::interactor::show_author_verdict(subject, Ok(Some(author)))) == Err::<
            AuthorView,
            PresentationalError,
        >(PresentationalError::Authorization),
{
}

} // verus!
