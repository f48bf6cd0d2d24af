//! The composition root: the value built once at startup that hands the
//! handlers their repository.

use vstd::prelude::*;

use crate::repository::BookRepository;

verus! {

/// Holds the book repository that every handler works through.
pub struct AppRegistry<R: BookRepository> {
    book_repository: R,
}

impl<R: BookRepository> AppRegistry<R> {
    /// The repository held.
    pub closed spec fn repository(&self) -> R {
        self.book_repository
    }

    /// A registry around `book_repository`.
    pub fn new(book_repository: R) -> (r: Self)
        ensures
            r.repository() == book_repository,
    {
        AppRegistry { book_repository }
    }

    /// The repository, to read from.
    pub fn book_repository(&self) -> (r: &R)
        ensures
            *r == self.repository(),
    {
        &self.book_repository
    }

    /// The repository, to write to: what is done through it is what the
    /// registry holds afterwards.
    pub fn book_repository_mut(&mut self) -> (r: &mut R)
        ensures
            *r == old(self).repository(),
            final(self).repository() == *final(r),
    {
        &mut self.book_repository
    }
}

} // verus!
