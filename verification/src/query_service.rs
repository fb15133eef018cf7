//! The one surface through which resolvers reach the use cases.

use vstd::prelude::*;
use crate::domain::AuthorDetails;
use crate::domain::BookRecord;
use crate::domain::UserIdentity;
use crate::interactor::AuthError;
use crate::interactor::LoginUseCase;
use crate::interactor::ShowAuthorError;
use crate::interactor::ShowAuthorUseCase;
use crate::interactor::ShowBookError;
use crate::interactor::ShowBookUseCase;

verus! {

/// What resolvers may ask for. A new kind of query adds a method here and
/// a use case behind it; the resolvers that exist stay as they are.
pub trait QueryService {
    /// The book stored under `book_id`.
    fn find_book_by_id(&self, book_id: &str) -> Result<BookRecord, ShowBookError>;

    /// The author stored under `author_id`, as `subject` may see it.
    fn find_author_by_id(&self, subject: &str, author_id: &str) -> Result<
        AuthorDetails,
        ShowAuthorError,
    >;

    /// The identity behind a login.
    fn login(&self, identifier: &str, credential: &str) -> Result<UserIdentity, AuthError>;
}

/// The query service made of one use case of each kind. It holds no state
/// of its own and does no I/O: every call goes to the use case it owns.
pub struct QueryServiceImpl<L, A, B> {
    pub login_use_case: L,
    pub show_author_use_case: A,
    pub show_book_use_case: B,
}

impl<L, A, B> QueryServiceImpl<L, A, B> {
    /// Binds the service to its use cases.
    pub fn new(login_use_case: L, show_author_use_case: A, show_book_use_case: B) -> (out: Self)
        ensures
            out.login_use_case == login_use_case,
            out.show_author_use_case == show_author_use_case,
            out.show_book_use_case == show_book_use_case,
    {
        QueryServiceImpl { login_use_case, show_author_use_case, show_book_use_case }
    }
}

impl<L: LoginUseCase, A: ShowAuthorUseCase, B: ShowBookUseCase> QueryService for QueryServiceImpl<
    L,
    A,
    B,
> {
    /// Hands the call to the use case of showing a book.
    fn find_book_by_id(&self, book_id: &str) -> (out: Result<BookRecord, ShowBookError>)
        ensures
            call_ensures(B::show_book, (&self.show_book_use_case, book_id), out),
    {
        self.show_book_use_case.show_book(book_id)
    }

    /// Hands the call to the use case of showing an author.
    fn find_author_by_id(&self, subject: &str, author_id: &str) -> (out: Result<
        AuthorDetails,
        ShowAuthorError,
    >)
        ensures
            call_ensures(A::show_author, (&self.show_author_use_case, subject, author_id), out),
    {
        self.show_author_use_case.show_author(subject, author_id)
    }

    /// Hands the call to the login use case.
    fn login(&self, identifier: &str, credential: &str) -> (out: Result<UserIdentity, AuthError>)
        ensures
            call_ensures(L::login, (&self.login_use_case, identifier, credential), out),
    {
        self.login_use_case.login(identifier, credential)
    }
}

} // verus!
