//! The repository contract for books, and a store that keeps them in memory.

use vstd::prelude::*;

use crate::book::{
    books_view, id_is_fresh, ids_unique, Book, BookId, BookView, CreateBook, CreateBookView,
};

verus! {

/// The one failure a repository reports: storage could not do the work.
#[derive(Clone, Copy, Debug, PartialEq, Eq, Structural)]
pub enum RepositoryError {
    /// The store is closed, or it refused the write.
    StorageFailure,
}

/// The capabilities a store of books offers: create one, list them all.
pub trait BookRepository {
    /// The books stored now.
    spec fn books(&self) -> Seq<BookView>;

    /// Whether the store accepts work at all.
    spec fn is_open(&self) -> bool;

    /// The store's own invariant.
    spec fn well_formed(&self) -> bool;

    /// Whether the store does all the work it is given while it is open,
    /// failing a creation only where the identifier it drew is taken.
    spec fn serves_while_open(&self) -> bool;

    /// Stores a new book made from `event` under an identifier that no stored
    /// book has; on failure nothing is stored.
    fn create(&mut self, event: CreateBook) -> (r: Result<(), RepositoryError>)
        requires
            old(self).well_formed(),
        ensures
            final(self).well_formed(),
            final(self).is_open() == old(self).is_open(),
            final(self).serves_while_open() == old(self).serves_while_open(),
            !old(self).is_open() ==> r is Err,
            old(self).is_open() && old(self).serves_while_open() && r is Err ==> old(
                self,
            ).books().len() > 0,
            r is Err ==> final(self).books() == old(self).books(),
            r is Ok ==> exists|id: u128|
                #[trigger] id_is_fresh(old(self).books(), id) && final(self).books()
                    == old(self).books().push(event@.with_id(id)),
    ;

    /// Every stored book, in no particular order.
    fn find_all(&self) -> (r: Result<Vec<Book>, RepositoryError>)
        requires
            self.well_formed(),
        ensures
            !self.is_open() ==> r is Err,
            self.is_open() && self.serves_while_open() ==> r is Ok,
            r is Ok ==> books_view(r->Ok_0@).to_multiset() == self.books().to_multiset(),
    ;
}

/// What an in-memory store is, mathematically.
pub struct StoreView {
    pub books: Seq<BookView>,
    pub open: bool,
}

/// The store after an insert of `event` under `id`, or `None` where the
/// store refuses it: it is closed, or `id` is taken already.
pub open spec fn insert_spec(s: StoreView, event: CreateBookView, id: u128) -> Option<StoreView> {
    if s.open && id_is_fresh(s.books, id) {
        Some(StoreView { books: s.books.push(event.with_id(id)), open: true })
    } else {
        None
    }
}

/// What a listing of the store returns: every book in the order of insertion,
/// or `None` where the store is closed.
pub open spec fn list_spec(s: StoreView) -> Option<Seq<BookView>> {
    if s.open {
        Some(s.books)
    } else {
        None
    }
}

/// A store of books held in memory, in the order of insertion. Its
/// identifiers are unique, as a primary key would keep them.
pub struct InMemoryBookRepository {
    books: Vec<Book>,
    open: bool,
}

impl View for InMemoryBookRepository {
    type V = StoreView;

    closed spec fn view(&self) -> StoreView {
        StoreView { books: books_view(self.books@), open: self.open }
    }
}

/// Relies on uuid::Uuid::new_v4 and Uuid::as_u128: a random UUID of version 4,
/// whose version nibble reads 4 and whose variant bits read 0b10.
#[verifier::external_body]
fn new_book_id() -> (r: u128)
    ensures
        (r >> 76u128) & 0xfu128 == 4u128,
        (r >> 62u128) & 0x3u128 == 2u128,
{
    uuid::Uuid::new_v4().as_u128()
}

impl InMemoryBookRepository {
    /// The store's invariant: no identifier is stored twice.
    pub open spec fn keeps_ids_unique(&self) -> bool {
        ids_unique(self@.books)
    }

    /// An empty store that accepts work.
    pub fn new() -> (r: Self)
        ensures
            r.keeps_ids_unique(),
            r@.books == Seq::<BookView>::empty(),
            r@.open,
    {
        let r = InMemoryBookRepository { books: Vec::new(), open: true };
        proof {
            assert(books_view(r.books@) =~= Seq::<BookView>::empty());
        }
        r
    }

    /// Closes the store: from now on each call fails, as on a closed pool.
    pub fn close(&mut self)
        requires
            old(self).keeps_ids_unique(),
        ensures
            final(self).keeps_ids_unique(),
            final(self)@.books == old(self)@.books,
            !final(self)@.open,
    {
        self.open = false;
    }

    /// Whether the store accepts work.
    pub fn is_open(&self) -> (r: bool)
        ensures
            r == self@.open,
    {
        self.open
    }

    /// The number of stored books.
    pub fn len(&self) -> (r: usize)
        ensures
            r == self@.books.len(),
    {
        self.books.len()
    }

    /// Whether a stored book has the identifier `id`.
    pub fn contains_id(&self, id: BookId) -> (r: bool)
        ensures
            r == !id_is_fresh(self@.books, id.value),
    {
        let mut i: usize = 0;
        while i < self.books.len()
            invariant
                i <= self.books@.len(),
                id_is_fresh(books_view(self.books@).take(i as int), id.value),
            decreases self.books@.len() - i,
        {
            if self.books[i].id.value == id.value {
                assert(books_view(self.books@)[i as int].id == id.value);
                return true;
            }
            assert(books_view(self.books@).take(i + 1) =~= books_view(self.books@).take(
                i as int,
            ).push(books_view(self.books@)[i as int]));
            i = i + 1;
        }
        assert(books_view(self.books@).take(i as int) =~= books_view(self.books@));
        false
    }

    /// Stores the book that `event` becomes under `id`. Fails, storing
    /// nothing, where the store is closed or `id` is taken.
    pub fn insert_with_id(&mut self, event: CreateBook, id: BookId) -> (r: Result<
        (),
        RepositoryError,
    >)
        requires
            old(self).keeps_ids_unique(),
        ensures
            final(self).keeps_ids_unique(),
            final(self)@.open == old(self)@.open,
            r is Ok <==> insert_spec(old(self)@, event@, id.value) is Some,
            r is Ok ==> final(self)@ == insert_spec(old(self)@, event@, id.value)->Some_0,
            r is Err ==> final(self)@ == old(self)@,
    {
        if !self.open || self.contains_id(id) {
            return Err(RepositoryError::StorageFailure);
        }
        let ghost before = books_view(self.books@);
        self.books.push(event.into_book(id));
        proof {
            assert(books_view(self.books@) =~= before.push(event@.with_id(id.value)));
        }
        Ok(())
    }

    /// Every stored book in the order of insertion; fails where the store is closed.
    pub fn list(&self) -> (r: Result<Vec<Book>, RepositoryError>)
        ensures
            r is Ok <==> list_spec(self@) is Some,
            r is Ok ==> books_view(r->Ok_0@) == list_spec(self@)->Some_0,
    {
        if !self.open {
            return Err(RepositoryError::StorageFailure);
        }
        let mut out: Vec<Book> = Vec::new();
        let mut i: usize = 0;
        while i < self.books.len()
            invariant
                i <= self.books@.len(),
                books_view(out@) == books_view(self.books@).take(i as int),
            decreases self.books@.len() - i,
        {
            let b = self.books[i].duplicate();
            let ghost prev = out@;
            out.push(b);
            assert(books_view(out@) =~= books_view(prev).push(b@));
            assert(books_view(self.books@).take(i + 1) =~= books_view(self.books@).take(
                i as int,
            ).push(books_view(self.books@)[i as int]));
            i = i + 1;
        }
        assert(books_view(self.books@).take(i as int) =~= books_view(self.books@));
        Ok(out)
    }
}

impl BookRepository for InMemoryBookRepository {
    open spec fn books(&self) -> Seq<BookView> {
        self@.books
    }

    open spec fn is_open(&self) -> bool {
        self@.open
    }

    open spec fn well_formed(&self) -> bool {
        self.keeps_ids_unique()
    }

    open spec fn serves_while_open(&self) -> bool {
        true
    }

    /// Inserts under a freshly drawn UUID; fails only where the store is
    /// closed or already holds a book with the drawn identifier.
    fn create(&mut self, event: CreateBook) -> (r: Result<(), RepositoryError>)
        ensures
            r is Ok ==> exists|id: u128|
                #[trigger] insert_spec(old(self)@, event@, id) == Some(final(self)@),
            r is Err ==> final(self)@ == old(self)@,
            r is Err ==> !old(self)@.open || exists|id: u128|
                !(#[trigger] id_is_fresh(old(self)@.books, id)),
            old(self)@.open && old(self)@.books.len() == 0 ==> r is Ok,
    {
        let id = BookId { value: new_book_id() };
        let ghost ev = event@;
        let r = self.insert_with_id(event, id);
        if r.is_ok() {
            proof {
                assert(id_is_fresh(old(self)@.books, id.value));
                assert(self@.books == old(self)@.books.push(ev.with_id(id.value)));
                assert(id_is_fresh(old(self).books(), id.value) && self.books() == old(
                    self,
                ).books().push(ev.with_id(id.value)));
                assert(insert_spec(old(self)@, ev, id.value) == Some(self@));
            }
        } else {
            proof {
                if old(self)@.open {
                    assert(!id_is_fresh(old(self)@.books, id.value));
                }
            }
        }
        r
    }

    /// Every stored book in the order of insertion, as `list` gives them.
    fn find_all(&self) -> (r: Result<Vec<Book>, RepositoryError>)
        ensures
            r is Ok <==> list_spec(self@) is Some,
            r is Ok ==> books_view(r->Ok_0@) == list_spec(self@)->Some_0,
    {
        self.list()
    }
}

} // verus!
