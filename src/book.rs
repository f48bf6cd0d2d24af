//! The domain entity `Book` and the `CreateBook` event that produces it.

use vstd::prelude::*;

verus! {

/// The identifier of a stored book: the 128 bits of a UUID, most significant first.
#[derive(Clone, Copy, Debug, PartialEq, Eq, Structural)]
pub struct BookId {
    pub value: u128,
}

/// A stored book.
#[derive(Debug)]
pub struct Book {
    pub id: BookId,
    pub title: String,
    pub author: String,
    pub isbn: String,
    pub description: String,
}

/// The request to store a new book: a `Book` without its identifier.
#[derive(Debug)]
pub struct CreateBook {
    pub title: String,
    pub author: String,
    pub isbn: String,
    pub description: String,
}

/// What a book is, mathematically.
pub struct BookView {
    pub id: u128,
    pub title: Seq<char>,
    pub author: Seq<char>,
    pub isbn: Seq<char>,
    pub description: Seq<char>,
}

/// What a creation event is, mathematically.
pub struct CreateBookView {
    pub title: Seq<char>,
    pub author: Seq<char>,
    pub isbn: Seq<char>,
    pub description: Seq<char>,
}

impl CreateBookView {
    /// The book that this event becomes once storage gives it `id`.
    pub open spec fn with_id(self, id: u128) -> BookView {
        BookView {
            id,
            title: self.title,
            author: self.author,
            isbn: self.isbn,
            description: self.description,
        }
    }
}

impl View for Book {
    type V = BookView;

    open spec fn view(&self) -> BookView {
        BookView {
            id: self.id.value,
            title: self.title@,
            author: self.author@,
            isbn: self.isbn@,
            description: self.description@,
        }
    }
}

impl View for CreateBook {
    type V = CreateBookView;

    open spec fn view(&self) -> CreateBookView {
        CreateBookView {
            title: self.title@,
            author: self.author@,
            isbn: self.isbn@,
            description: self.description@,
        }
    }
}

/// The views of a sequence of books, in the same order.
pub open spec fn books_view(books: Seq<Book>) -> Seq<BookView> {
    books.map_values(|b: Book| b@)
}

/// No identifier occurs twice among `books`.
pub open spec fn ids_unique(books: Seq<BookView>) -> bool {
    forall|i: int, j: int|
        0 <= i < books.len() && 0 <= j < books.len() && i != j ==> books[i].id != books[j].id
}

/// No book among `books` has the identifier `id`.
pub open spec fn id_is_fresh(books: Seq<BookView>, id: u128) -> bool {
    forall|i: int| 0 <= i < books.len() ==> books[i].id != id
}

impl Book {
    /// A copy of this book.
    pub fn duplicate(&self) -> (r: Book)
        ensures
            r@ == self@,
    {
        Book {
            id: self.id,
            title: self.title.clone(),
            author: self.author.clone(),
            isbn: self.isbn.clone(),
            description: self.description.clone(),
        }
    }
}

impl CreateBook {
    /// The stored book that this event becomes under the identifier `id`.
    pub fn into_book(self, id: BookId) -> (r: Book)
        ensures
            r@ == self@.with_id(id.value),
    {
        Book {
            id,
            title: self.title,
            author: self.author,
            isbn: self.isbn,
            description: self.description,
        }
    }
}

} // verus!
