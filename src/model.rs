//! The request and response bodies of the books endpoints. Their wire names
//! are camelCase; the JSON encoding itself lives beside the HTTP server.

use vstd::prelude::*;

use crate::book::{Book, BookId, BookView, CreateBook, CreateBookView};

verus! {

/// The body of a request to register a book.
#[derive(Debug)]
pub struct CreateBookRequest {
    pub title: String,
    pub author: String,
    pub isbn: String,
    pub description: String,
}

/// One entry of the book list that the server returns.
#[derive(Debug)]
pub struct BookResponse {
    pub id: BookId,
    pub title: String,
    pub author: String,
    pub isbn: String,
    pub description: String,
}

impl View for CreateBookRequest {
    type V = CreateBookView;

    open spec fn view(&self) -> CreateBookView {
        CreateBookView {
            title: self.title@,
            author: self.author@,
            isbn: self.isbn@,
            description: self.description@,
        }
    }
}

impl View for BookResponse {
    type V = BookView;

    open spec fn view(&self) -> BookView {
        BookView {
            id: self.id.value,
            title: self.title@,
            author: self.author@,
            isbn: self.isbn@,
            description: self.description@,
        }
    }
}

/// The views of a sequence of list entries, in the same order.
pub open spec fn responses_view(items: Seq<BookResponse>) -> Seq<BookView> {
    items.map_values(|b: BookResponse| b@)
}

impl From<CreateBookRequest> for CreateBook {
    fn from(value: CreateBookRequest) -> (r: CreateBook)
        ensures
            r@ == value@,
    {
        CreateBook {
            title: value.title,
            author: value.author,
            isbn: value.isbn,
            description: value.description,
        }
    }
}

impl vstd::std_specs::convert::FromSpecImpl<CreateBookRequest> for CreateBook {
    open spec fn obeys_from_spec() -> bool {
        true
    }

    open spec fn from_spec(v: CreateBookRequest) -> CreateBook {
        CreateBook { title: v.title, author: v.author, isbn: v.isbn, description: v.description }
    }
}

impl From<Book> for BookResponse {
    fn from(value: Book) -> (r: BookResponse)
        ensures
            r@ == value@,
    {
        BookResponse {
            id: value.id,
            title: value.title,
            author: value.author,
            isbn: value.isbn,
            description: value.description,
        }
    }
}

impl vstd::std_specs::convert::FromSpecImpl<Book> for BookResponse {
    open spec fn obeys_from_spec() -> bool {
        true
    }

    open spec fn from_spec(v: Book) -> BookResponse {
        BookResponse {
            id: v.id,
            title: v.title,
            author: v.author,
            isbn: v.isbn,
            description: v.description,
        }
    }
}

} // verus!
