//! The shapes in which results leave through the query endpoint. Field
//! names are part of the interface and stay as they are.

use vstd::prelude::*;

verus! {

/// A book as callers see it.
pub struct Book {
    id: String,
    title: String,
}

/// The mathematical content of a [`Book`].
pub struct BookView {
    pub id: Seq<char>,
    pub title: Seq<char>,
}

impl View for Book {
    type V = BookView;

    closed spec fn view(&self) -> BookView {
        BookView { id: self.id@, title: self.title@ }
    }
}

impl Book {
    pub fn new(id: String, title: String) -> (out: Self)
        ensures
            out@ == (BookView { id: id@, title: title@ }),
    {
        Book { id, title }
    }

    /// The opaque id of the book.
    pub fn id(&self) -> (out: &str)
        ensures
            out@ == self@.id,
    {
        self.id.as_str()
    }

    /// The title of the book.
    pub fn title(&self) -> (out: &str)
        ensures
            out@ == self@.title,
    {
        self.title.as_str()
    }
}

/// An author as callers see it: an opaque id and a display name.
pub struct Author {
    pub id: String,
    pub name: String,
}

/// The mathematical content of an [`Author`].
pub struct AuthorView {
    pub id: Seq<char>,
    pub name: Seq<char>,
}

impl View for Author {
    type V = AuthorView;

    open spec fn view(&self) -> AuthorView {
        AuthorView { id: self.id@, name: self.name@ }
    }
}

impl Author {
    pub fn new(id: String, name: String) -> (out: Self)
        ensures
            out@ == (AuthorView { id: id@, name: name@ }),
    {
        Author { id, name }
    }
}

} // verus!
