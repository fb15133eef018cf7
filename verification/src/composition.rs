//! The one place where implementations are bound to each other: each
//! repository to its use case, the use cases to the query service, the
//! query service to the root of the query endpoint.

use vstd::prelude::*;
use crate::domain::AuthorDetails;
use crate::domain::AuthorRecord;
use crate::domain::BookRecord;
use crate::domain::UserIdentity;
use crate::domain::UserRecord;
use crate::domain::StoreFailure;
use crate::extractor::RequestScope;
use crate::interactor::found_view;
use crate::interactor::login_verdict;
use crate::interactor::outcome_view;
use crate::interactor::show_book_verdict;
use crate::interactor::AuthError;
use crate::interactor::ShowBookError;
use crate::interactor::show_author_verdict;
use crate::interactor::LoginInteractor;
use crate::interactor::LoginUseCase;
use crate::interactor::ShowAuthorError;
use crate::interactor::ShowAuthorInteractor;
use crate::interactor::ShowAuthorUseCase;
use crate::interactor::ShowBookInteractor;
use crate::interactor::ShowBookUseCase;
use crate::object::Author;
use crate::object::Book;
use crate::query::author_answer;
use crate::query::book_answer;
use crate::query::id_view;
use crate::query::login_answer;
use crate::query::PresentationalError;
use crate::query::Query;
use crate::query_service::QueryService;
use crate::query_service::QueryServiceImpl;
use crate::repository::AuthorRepository;
use crate::repository::BookRepository;
use crate::repository::UserRepository;

verus! {

/// Builds the root of the query endpoint over the given repositories. To
/// put another store behind the service, hand in other repositories:
/// nothing above them changes.
pub fn compose<U: UserRepository, A: AuthorRepository, B: BookRepository>(
    users: U,
    authors: A,
    books: B,
) -> (out: Query<
    QueryServiceImpl<LoginInteractor<U>, ShowAuthorInteractor<A>, ShowBookInteractor<B>>,
>)
    ensures
        out.service().login_use_case.repository() == users,
        out.service().show_author_use_case.repository() == authors,
        out.service().show_book_use_case.repository() == books,
{
    let login_use_case = LoginInteractor::new(users);
    let show_author_use_case = ShowAuthorInteractor::new(authors);
    let show_book_use_case = ShowBookInteractor::new(books);
    let query_service = QueryServiceImpl::new(
        login_use_case,
        show_author_use_case,
        show_book_use_case,
    );
    Query::new(query_service)
}

/// Through all layers, the `author` field goes by the repository. Over a
/// query service with this crate's interactor for authors, whatever the
/// repository behind it: a request without identity is answered
/// `Unauthenticated`; for a request with identity the repository is asked
/// for the author id of the request, and the field's answer is the use
/// case's verdict, for the subject of the request, on what the repository
/// answered. So an author that the repository holds for another subject
/// reaches no caller.
pub proof fn law_author_field_goes_by_the_repository<
    L: LoginUseCase,
    R: AuthorRepository,
    B: ShowBookUseCase,
>(
    query: Query<QueryServiceImpl<L, ShowAuthorInteractor<R>, B>>,
    scope: RequestScope,
    author_id: String,
    out: Result<Author, PresentationalError>,
)
    requires
        call_ensures(
            Query::<QueryServiceImpl<L, ShowAuthorInteractor<R>, B>>::author,
            (&query, &scope, author_id),
            out,
        ),
    ensures
        match scope.subject() {
            None => out == Err::<Author, PresentationalError>(PresentationalError::Unauthenticated),
            Some(subject) => exists|id: &str, found: Result<Option<AuthorRecord>, StoreFailure>|
                id@ == author_id@ && #[trigger] call_ensures(
                    R::find_by_id,
                    (&query.service().show_author_use_case.repository(), id),
                    found,
                ) && outcome_view(out) == author_answer(
                    show_author_verdict(subject, found_view(found)),
                ),
        },
{
    if scope.subject() is Some {
        let identity = scope.subject()->0;
        let (subject, id, outcome) = choose|
            subject: &str,
            id: &str,
            outcome: Result<AuthorDetails, ShowAuthorError>,
        |
            subject@ == identity && id@ == author_id@ && #[trigger] call_ensures(
                <QueryServiceImpl<L, ShowAuthorInteractor<R>, B> as QueryService>::find_author_by_id,
                (&query.service(), subject, id),
                outcome,
            ) && outcome_view(out) == author_answer(outcome_view(outcome));
        let use_case = query.service().show_author_use_case;
        assert(call_ensures(
            <ShowAuthorInteractor<R> as ShowAuthorUseCase>::show_author,
            (&use_case, subject, id),
            outcome,
        ));
        let found = choose|found: Result<Option<AuthorRecord>, StoreFailure>|
            #[trigger] call_ensures(R::find_by_id, (&use_case.repository(), id), found)
                && outcome_view(outcome) == show_author_verdict(subject@, found_view(found));
        assert(call_ensures(R::find_by_id, (&use_case.repository(), id), found));
    }
}

/// Through all layers, the `login` field goes by the repository. Over a
/// query service with this crate's interactor for logins: the repository
/// is asked for the identifier of the request, and the field's answer is
/// the use case's verdict on what the repository answered, with an unknown
/// identifier and a wrong credential made to look alike.
pub proof fn law_login_field_goes_by_the_repository<
    U: UserRepository,
    A: ShowAuthorUseCase,
    B: ShowBookUseCase,
>(
    query: Query<QueryServiceImpl<LoginInteractor<U>, A, B>>,
    identifier: String,
    credential: String,
    out: Result<String, PresentationalError>,
)
    requires
        call_ensures(
            Query::<QueryServiceImpl<LoginInteractor<U>, A, B>>::login,
            (&query, identifier, credential),
            out,
        ),
    ensures
        exists|name: &str, found: Result<Option<UserRecord>, StoreFailure>|
            name@ == identifier@ && #[trigger] call_ensures(
                U::find_by_login,
                (&query.service().login_use_case.repository(), name),
                found,
            ) && id_view(out) == login_answer(login_verdict(credential@, found_view(found))),
{
    let (name, secret, outcome) = choose|
        name: &str,
        secret: &str,
        outcome: Result<UserIdentity, AuthError>,
    |
        name@ == identifier@ && secret@ == credential@ && #[trigger] call_ensures(
            <QueryServiceImpl<LoginInteractor<U>, A, B> as QueryService>::login,
            (&query.service(), name, secret),
            outcome,
        ) && id_view(out) == login_answer(outcome_view(outcome));
    let use_case = query.service().login_use_case;
    assert(call_ensures(
        <LoginInteractor<U> as LoginUseCase>::login,
        (&use_case, name, secret),
        outcome,
    ));
    let found = choose|found: Result<Option<UserRecord>, StoreFailure>|
        #[trigger] call_ensures(U::find_by_login, (&use_case.repository(), name), found)
            && outcome_view(outcome) == login_verdict(secret@, found_view(found));
    assert(call_ensures(U::find_by_login, (&use_case.repository(), name), found));
}

/// Through all layers, the `book` field goes by the repository. Over a
/// query service with this crate's interactor for books: the repository is
/// asked for the book id of the request, and the field's answer is the use
/// case's verdict on what the repository answered.
pub proof fn law_book_field_goes_by_the_repository<
    L: LoginUseCase,
    A: ShowAuthorUseCase,
    S: BookRepository,
>(
    query: Query<QueryServiceImpl<L, A, ShowBookInteractor<S>>>,
    book_id: String,
    out: Result<Book, PresentationalError>,
)
    requires
        call_ensures(
            Query::<QueryServiceImpl<L, A, ShowBookInteractor<S>>>::book,
            (&query, book_id),
            out,
        ),
    ensures
        exists|id: &str, found: Result<Option<BookRecord>, StoreFailure>|
            id@ == book_id@ && #[trigger] call_ensures(
                S::find_by_id,
                (&query.service().show_book_use_case.repository(), id),
                found,
            ) && outcome_view(out) == book_answer(show_book_verdict(found_view(found))),
{
    let (id, outcome) = choose|id: &str, outcome: Result<BookRecord, ShowBookError>|
        id@ == book_id@ && #[trigger] call_ensures(
            <QueryServiceImpl<L, A, ShowBookInteractor<S>> as QueryService>::find_book_by_id,
            (&query.service(), id),
            outcome,
        ) && outcome_view(out) == book_answer(outcome_view(outcome));
    let use_case = query.service().show_book_use_case;
    assert(call_ensures(
        <ShowBookInteractor<S> as ShowBookUseCase>::show_book,
        (&use_case, id),
        outcome,
    ));
    let found = choose|found: Result<Option<BookRecord>, StoreFailure>|
        #[trigger] call_ensures(S::find_by_id, (&use_case.repository(), id), found)
            && outcome_view(outcome) == show_book_verdict(found_view(found));
    assert(call_ensures(S::find_by_id, (&use_case.repository(), id), found));
}

} // verus!
