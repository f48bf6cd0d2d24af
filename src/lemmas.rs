//! Laws of the books service, stated over the models that the contracts use:
//! `insert_spec` and `list_spec` for the in-memory store's `insert_with_id`,
//! `create`, `list` and `find_all`; `registration_result`, `status_response`
//! and `listing_response` for the handlers' responses; and a listing's
//! multiset for `show_book_list` and `get_books`.

use vstd::prelude::*;

use crate::book::{id_is_fresh, ids_unique, BookView, CreateBookView};
use crate::handler::{
    client_error_status, empty_response, listing_response, registration_result,
    status_response, ResponseView, STATUS_CREATED, STATUS_INTERNAL_SERVER_ERROR, STATUS_OK,
};
use crate::repository::{insert_spec, list_spec, RepositoryError, StoreView};

verus! {

/// Registering a book on an open store, under an identifier that no stored
/// book has, succeeds with 201 and adds exactly one book to what a listing
/// returns, keeping the identifiers unique.
pub proof fn lemma_registration_adds_one_book(s: StoreView, event: CreateBookView, id: u128)
    requires
        s.open,
        ids_unique(s.books),
        id_is_fresh(s.books, id),
    ensures
        insert_spec(s, event, id) is Some,
        status_response(registration_result(Ok(()))) == empty_response(STATUS_CREATED),
        list_spec(insert_spec(s, event, id)->Some_0) is Some,
        list_spec(insert_spec(s, event, id)->Some_0)->Some_0.len() == s.books.len() + 1,
        list_spec(insert_spec(s, event, id)->Some_0)->Some_0.drop_last() == s.books,
        ids_unique(insert_spec(s, event, id)->Some_0.books),
{
    let after = insert_spec(s, event, id)->Some_0.books;
    assert(after.drop_last() =~= s.books);
    assert forall|i: int, j: int|
        0 <= i < after.len() && 0 <= j < after.len() && i != j implies after[i].id
        != after[j].id by {
        if i < s.books.len() && j < s.books.len() {
            assert(after[i] == s.books[i] && after[j] == s.books[j]);
        } else if i < s.books.len() {
            assert(after[i] == s.books[i]);
        } else {
            assert(after[j] == s.books[j]);
        }
    }
}

/// The fields of a registered book come back verbatim in the listing, last,
/// under the newly assigned identifier, which no earlier book has.
pub proof fn lemma_registered_fields_round_trip(s: StoreView, event: CreateBookView, id: u128)
    requires
        s.open,
        id_is_fresh(s.books, id),
    ensures
        ({
            let listed = listing_response(list_spec(insert_spec(s, event, id)->Some_0));
            &&& listed.status == STATUS_OK
            &&& listed.books is Some
            &&& listed.books->Some_0.last().title == event.title
            &&& listed.books->Some_0.last().author == event.author
            &&& listed.books->Some_0.last().isbn == event.isbn
            &&& listed.books->Some_0.last().description == event.description
            &&& listed.books->Some_0.last().id == id
            &&& forall|i: int| 0 <= i < s.books.len() ==> s.books[i].id != id
        }),
{
}

/// Listing an open store that holds nothing answers 200 with an empty array.
pub proof fn lemma_empty_store_lists_nothing(s: StoreView)
    requires
        s.open,
        s.books.len() == 0,
    ensures
        listing_response(list_spec(s)) == (ResponseView {
            status: STATUS_OK,
            books: Some(Seq::<BookView>::empty()),
        }),
{
    assert(s.books =~= Seq::<BookView>::empty());
}

/// A body that did not decode is answered with a client-error status.
pub proof fn lemma_undecodable_body_is_client_error(framework_status: u16)
    ensures
        400 <= client_error_status(framework_status) < 500,
{
}

/// A storage failure is answered with 500 and an empty body on both
/// endpoints, and a closed store fails every call.
pub proof fn lemma_storage_failure_is_internal_error(
    e: RepositoryError,
    s: StoreView,
    event: CreateBookView,
    id: u128,
)
    requires
        !s.open,
    ensures
        status_response(registration_result(Err(e))) == empty_response(
            STATUS_INTERNAL_SERVER_ERROR,
        ),
        listing_response(None) == empty_response(STATUS_INTERNAL_SERVER_ERROR),
        insert_spec(s, event, id) is None,
        list_spec(s) is None,
{
}

/// A listing that holds the stored books in some order has as many entries as
/// the store has books, holds exactly the stored books, has pairwise distinct
/// identifiers where the store does, and is the store itself where the store
/// holds a single book.
pub proof fn lemma_listing_holds_the_stored_books(items: Seq<BookView>, books: Seq<BookView>)
    requires
        items.to_multiset() == books.to_multiset(),
    ensures
        items.len() == books.len(),
        forall|b: BookView| items.contains(b) <==> books.contains(b),
        ids_unique(books) ==> ids_unique(items),
        books.len() == 1 ==> items == books,
{
    vstd::seq_lib::to_multiset_len(items);
    vstd::seq_lib::to_multiset_len(books);
    assert forall|b: BookView| items.contains(b) <==> books.contains(b) by {
        vstd::seq_lib::to_multiset_contains(items, b);
        vstd::seq_lib::to_multiset_contains(books, b);
    }
    if books.len() == 1 {
        assert(books.contains(books[0]));
        assert(items.contains(books[0]));
        assert(items =~= books);
    }
    if ids_unique(books) {
        assert(books.no_duplicates());
        books.lemma_multiset_has_no_duplicates();
        items.lemma_multiset_has_no_duplicates_conv();
        assert forall|i: int, j: int|
            0 <= i < items.len() && 0 <= j < items.len() && i != j implies items[i].id
            != items[j].id by {
            assert(items.contains(items[i]) && items.contains(items[j]));
            let k = choose|k: int| 0 <= k < books.len() && books[k] == items[i];
            let l = choose|l: int| 0 <= l < books.len() && books[l] == items[j];
            assert(items[i] != items[j]);
        }
    }
}

} // verus!
