use std::cell::Cell;
use std::rc::Rc;

use authgate::domain::{AuthorRecord, BookRecord, StoreFailure, UserRecord};
use authgate::interactor::{
    decide_login, decide_show_author, decide_show_book, AuthError, LoginInteractor, LoginUseCase,
    ShowAuthorError, ShowAuthorInteractor, ShowAuthorUseCase, ShowBookError, ShowBookInteractor,
    ShowBookUseCase,
};
use authgate::repository::{AuthorRepository, BookRepository, UserRepository};

fn author(id: &str, name: &str, owner: &str) -> AuthorRecord {
    AuthorRecord { id: id.to_string(), name: name.to_string(), owner: owner.to_string() }
}

fn user(id: &str, login: &str, credential: &str) -> UserRecord {
    UserRecord { id: id.to_string(), login: login.to_string(), credential: credential.to_string() }
}

struct Shelf {
    up: bool,
    asked: Rc<Cell<usize>>,
}

impl Shelf {
    fn new(up: bool) -> Shelf {
        Shelf { up, asked: Rc::new(Cell::new(0)) }
    }
}

impl AuthorRepository for Shelf {
    fn find_by_id(&self, author_id: &str) -> Result<Option<AuthorRecord>, StoreFailure> {
        self.asked.set(self.asked.get() + 1);
        if !self.up {
            return Err(StoreFailure);
        }
        Ok(match author_id {
            "A1" => Some(author("A1", "Ursula", "auth0|user-u")),
            "A2" => Some(author("A2", "Victor", "auth0|user-v")),
            _ => None,
        })
    }
}

impl BookRepository for Shelf {
    fn find_by_id(&self, book_id: &str) -> Result<Option<BookRecord>, StoreFailure> {
        self.asked.set(self.asked.get() + 1);
        if !self.up {
            return Err(StoreFailure);
        }
        Ok(match book_id {
            "B1" => Some(BookRecord { id: "B1".to_string(), title: "The Dispossessed".to_string() }),
            _ => None,
        })
    }
}

impl UserRepository for Shelf {
    fn find_by_login(&self, login: &str) -> Result<Option<UserRecord>, StoreFailure> {
        self.asked.set(self.asked.get() + 1);
        if !self.up {
            return Err(StoreFailure);
        }
        Ok(match login {
            "ursula" => Some(user("U1", "ursula", "correct horse")),
            _ => None,
        })
    }
}

#[test]
fn owner_sees_the_author() {
    let details = decide_show_author("auth0|user-u", Ok(Some(author("A1", "Ursula", "auth0|user-u"))))
        .ok()
        .expect("the owner asks");
    assert_eq!(details.id, "A1");
    assert_eq!(details.name, "Ursula");
}

#[test]
fn author_of_another_subject_is_forbidden_though_it_exists() {
    let outcome = decide_show_author("auth0|user-u", Ok(Some(author("A2", "Victor", "auth0|user-v"))));
    assert_eq!(outcome.err(), Some(ShowAuthorError::Forbidden));
    let outcome = decide_show_author("", Ok(Some(author("A2", "Victor", "auth0|user-v"))));
    assert_eq!(outcome.err(), Some(ShowAuthorError::Forbidden));
    let outcome = decide_show_author("auth0|user-V", Ok(Some(author("A2", "Victor", "auth0|user-v"))));
    assert_eq!(outcome.err(), Some(ShowAuthorError::Forbidden));
}

#[test]
fn missing_author_is_not_found() {
    assert_eq!(decide_show_author("auth0|user-u", Ok(None)).err(), Some(ShowAuthorError::NotFound));
}

#[test]
fn failing_store_is_unavailable_for_every_use_case() {
    assert_eq!(
        decide_show_author("auth0|user-u", Err(StoreFailure)).err(),
        Some(ShowAuthorError::StoreUnavailable)
    );
    assert_eq!(decide_show_book(Err(StoreFailure)).err(), Some(ShowBookError::StoreUnavailable));
    assert_eq!(decide_login("secret", Err(StoreFailure)).err(), Some(AuthError::StoreUnavailable));
}

#[test]
fn login_tells_the_three_failures_apart() {
    let identity = decide_login("correct horse", Ok(Some(user("U1", "ursula", "correct horse"))))
        .ok()
        .expect("the right credential");
    assert_eq!(identity.id, "U1");
    assert_eq!(identity.login, "ursula");
    assert_eq!(
        decide_login("wrong horse", Ok(Some(user("U1", "ursula", "correct horse")))).err(),
        Some(AuthError::CredentialMismatch)
    );
    assert_eq!(
        decide_login("", Ok(Some(user("U1", "ursula", "correct horse")))).err(),
        Some(AuthError::CredentialMismatch)
    );
    assert_eq!(decide_login("correct horse", Ok(None)).err(), Some(AuthError::NotFound));
}

#[test]
fn book_is_shown_as_stored() {
    let book = decide_show_book(Ok(Some(BookRecord { id: "B1".to_string(), title: "Title".to_string() })))
        .ok()
        .expect("the book exists");
    assert_eq!(book.id, "B1");
    assert_eq!(book.title, "Title");
    assert_eq!(decide_show_book(Ok(None)).err(), Some(ShowBookError::NotFound));
}

#[test]
fn show_author_asks_its_repository_once() {
    let shelf = Shelf::new(true);
    let asked = shelf.asked.clone();
    let use_case = ShowAuthorInteractor::new(shelf);
    let details = use_case.show_author("auth0|user-u", "A1").ok().expect("the owner asks");
    assert_eq!(details.id, "A1");
    assert_eq!(details.name, "Ursula");
    assert_eq!(asked.get(), 1);
    assert_eq!(use_case.show_author("auth0|user-u", "A2").err(), Some(ShowAuthorError::Forbidden));
    assert_eq!(use_case.show_author("auth0|user-u", "A9").err(), Some(ShowAuthorError::NotFound));
    assert_eq!(asked.get(), 3);
}

#[test]
fn use_cases_report_a_store_that_is_down() {
    assert_eq!(
        ShowAuthorInteractor::new(Shelf::new(false)).show_author("auth0|user-u", "A1").err(),
        Some(ShowAuthorError::StoreUnavailable)
    );
    assert_eq!(
        ShowBookInteractor::new(Shelf::new(false)).show_book("B1").err(),
        Some(ShowBookError::StoreUnavailable)
    );
    assert_eq!(
        LoginInteractor::new(Shelf::new(false)).login("ursula", "correct horse").err(),
        Some(AuthError::StoreUnavailable)
    );
}

#[test]
fn login_and_book_use_cases_go_through_their_repositories() {
    let login = LoginInteractor::new(Shelf::new(true));
    assert_eq!(login.login("ursula", "correct horse").ok().map(|i| i.id), Some("U1".to_string()));
    assert_eq!(login.login("ursula", "wrong").err(), Some(AuthError::CredentialMismatch));
    assert_eq!(login.login("nobody", "correct horse").err(), Some(AuthError::NotFound));
    let books = ShowBookInteractor::new(Shelf::new(true));
    assert_eq!(books.show_book("B1").ok().map(|b| b.title), Some("The Dispossessed".to_string()));
    assert_eq!(books.show_book("B2").err(), Some(ShowBookError::NotFound));
}
