//! What the books endpoints answer: the handlers turn a request into
//! repository calls, and a repository's outcome into a status and a body.

use vstd::prelude::*;

use crate::book::{books_view, id_is_fresh, Book, BookView, CreateBook};
use crate::model::{responses_view, BookResponse, CreateBookRequest};
use crate::registry::AppRegistry;
use crate::repository::{BookRepository, RepositoryError};

verus! {

/// 200 OK.
pub const STATUS_OK: u16 = 200;

/// 201 Created.
pub const STATUS_CREATED: u16 = 201;

/// 400 Bad Request.
pub const STATUS_BAD_REQUEST: u16 = 400;

/// 500 Internal Server Error.
pub const STATUS_INTERNAL_SERVER_ERROR: u16 = 500;

/// The error a handler reports; every repository failure collapses into it.
#[derive(Clone, Copy, Debug, PartialEq, Eq, Structural)]
pub enum AppError {
    InternalError(RepositoryError),
}

impl From<RepositoryError> for AppError {
    fn from(e: RepositoryError) -> (r: AppError)
        ensures
            r == AppError::InternalError(e),
    {
        AppError::InternalError(e)
    }
}

impl vstd::std_specs::convert::FromSpecImpl<RepositoryError> for AppError {
    open spec fn obeys_from_spec() -> bool {
        true
    }

    open spec fn from_spec(e: RepositoryError) -> AppError {
        AppError::InternalError(e)
    }
}

/// The body of a response.
#[derive(Debug)]
pub enum ResponseBody {
    /// No body at all.
    Empty,
    /// A JSON array of books.
    BookList(Vec<BookResponse>),
}

/// A status and a body, ready to be sent.
#[derive(Debug)]
pub struct Response {
    pub status: u16,
    pub body: ResponseBody,
}

/// What a response is: its status, and the books of its body (`None` for an
/// empty body).
pub struct ResponseView {
    pub status: u16,
    pub books: Option<Seq<BookView>>,
}

impl View for Response {
    type V = ResponseView;

    open spec fn view(&self) -> ResponseView {
        ResponseView {
            status: self.status,
            books: match self.body {
                ResponseBody::Empty => None,
                ResponseBody::BookList(items) => Some(responses_view(items@)),
            },
        }
    }
}

/// A response with `status` and an empty body.
pub open spec fn empty_response(status: u16) -> ResponseView {
    ResponseView { status, books: None }
}

/// The status sent for a body that could not be decoded: the framework's
/// own where it is a client error, else 400.
pub open spec fn client_error_status(framework_status: u16) -> u16 {
    if 400 <= framework_status < 500 {
        framework_status
    } else {
        STATUS_BAD_REQUEST
    }
}

/// What the registration handler returns for the repository's outcome.
pub open spec fn registration_result(outcome: Result<(), RepositoryError>) -> Result<u16, AppError> {
    match outcome {
        Ok(()) => Ok(STATUS_CREATED),
        Err(e) => Err(AppError::InternalError(e)),
    }
}

/// The response sent for a handler's status or error.
pub open spec fn status_response(result: Result<u16, AppError>) -> ResponseView {
    match result {
        Ok(status) => empty_response(status),
        Err(_) => empty_response(STATUS_INTERNAL_SERVER_ERROR),
    }
}

/// The response sent for a listing: 200 with the books, or 500 with nothing.
pub open spec fn listing_response(listed: Option<Seq<BookView>>) -> ResponseView {
    match listed {
        Some(books) => ResponseView { status: STATUS_OK, books: Some(books) },
        None => empty_response(STATUS_INTERNAL_SERVER_ERROR),
    }
}

impl AppError {
    /// Every handler error is sent as 500 with an empty body.
    pub fn into_response(self) -> (r: Response)
        ensures
            r@ == empty_response(STATUS_INTERNAL_SERVER_ERROR),
    {
        Response { status: STATUS_INTERNAL_SERVER_ERROR, body: ResponseBody::Empty }
    }
}

/// The registration handler's answer for the repository's outcome.
pub fn registration_outcome(outcome: Result<(), RepositoryError>) -> (r: Result<u16, AppError>)
    ensures
        r == registration_result(outcome),
{
    match outcome {
        Ok(()) => Ok(STATUS_CREATED),
        Err(e) => Err(AppError::from(e)),
    }
}

/// The listing handler's answer for the repository's outcome: each book as a
/// list entry, in the same order, or the error.
pub fn listing_outcome(outcome: Result<Vec<Book>, RepositoryError>) -> (r: Result<
    Vec<BookResponse>,
    AppError,
>)
    ensures
        outcome is Ok <==> r is Ok,
        outcome is Ok ==> responses_view(r->Ok_0@) == books_view(outcome->Ok_0@),
        outcome is Err ==> r == Err::<Vec<BookResponse>, AppError>(
            AppError::InternalError(outcome->Err_0),
        ),
{
    match outcome {
        Ok(books) => {
            let mut items: Vec<BookResponse> = Vec::new();
            let mut rest = books;
            let ghost all = books_view(rest@);
            // Books are moved out from the back, then moved again so that
            // the entries come out in the original order.
            let mut reversed: Vec<BookResponse> = Vec::new();
            while rest.len() > 0
                invariant
                    books_view(rest@) + responses_view(reversed@).reverse() == all,
                decreases rest@.len(),
            {
                let ghost before_rest = rest@;
                let ghost before_rev = reversed@;
                let b = rest.pop().unwrap();
                reversed.push(BookResponse::from(b));
                proof {
                    assert(before_rest == rest@.push(b));
                    assert(books_view(before_rest) =~= books_view(rest@).push(b@));
                    assert(responses_view(reversed@) =~= responses_view(before_rev).push(b@));
                    assert(responses_view(reversed@).reverse() =~= seq![b@] + responses_view(
                        before_rev,
                    ).reverse());
                    assert(books_view(rest@) + responses_view(reversed@).reverse() =~= books_view(
                        before_rest,
                    ) + responses_view(before_rev).reverse());
                }
            }
            proof {
                assert(books_view(rest@) =~= Seq::<BookView>::empty());
                assert(responses_view(reversed@).reverse() =~= all);
            }
            while reversed.len() > 0
                invariant
                    responses_view(items@) + responses_view(reversed@).reverse() == all,
                decreases reversed@.len(),
            {
                let ghost before_rev = reversed@;
                let ghost before_items = items@;
                let b = reversed.pop().unwrap();
                items.push(b);
                proof {
                    assert(before_rev == reversed@.push(b));
                    assert(responses_view(before_rev) =~= responses_view(reversed@).push(b@));
                    assert(responses_view(items@) =~= responses_view(before_items).push(b@));
                    assert(responses_view(before_rev).reverse() =~= seq![b@] + responses_view(
                        reversed@,
                    ).reverse());
                    assert(responses_view(items@) + responses_view(reversed@).reverse()
                        =~= responses_view(before_items) + responses_view(before_rev).reverse());
                }
            }
            proof {
                assert(responses_view(reversed@) =~= Seq::<BookView>::empty());
                assert(responses_view(items@) =~= all);
            }
            Ok(items)
        },
        Err(e) => Err(AppError::from(e)),
    }
}

/// Registers the book of `req`: 201 once the repository stored it under a
/// fresh identifier, else the repository's error and nothing stored.
pub fn register_book<R: BookRepository>(registry: &mut AppRegistry<R>, req: CreateBookRequest) -> (r:
    Result<u16, AppError>)
    requires
        old(registry).repository().well_formed(),
    ensures
        final(registry).repository().well_formed(),
        final(registry).repository().is_open() == old(registry).repository().is_open(),
        final(registry).repository().serves_while_open() == old(
            registry,
        ).repository().serves_while_open(),
        !old(registry).repository().is_open() ==> r is Err,
        old(registry).repository().is_open() && old(registry).repository().serves_while_open()
            && old(registry).repository().books().len() == 0 ==> r == Ok::<u16, AppError>(
            STATUS_CREATED,
        ),
        old(registry).repository().is_open() && old(registry).repository().serves_while_open()
            && r is Err ==> old(registry).repository().books().len() > 0,
        r is Ok ==> r == Ok::<u16, AppError>(STATUS_CREATED),
        r is Ok ==> exists|id: u128|
            #[trigger] id_is_fresh(old(registry).repository().books(), id)
                && final(registry).repository().books() == old(
                registry,
            ).repository().books().push(req@.with_id(id)),
        r is Err ==> final(registry).repository().books() == old(registry).repository().books(),
{
    let outcome = registry.book_repository_mut().create(CreateBook::from(req));
    registration_outcome(outcome)
}

/// Lists every stored book as list entries, in the repository's order, or
/// reports the repository's error.
pub fn show_book_list<R: BookRepository>(registry: &AppRegistry<R>) -> (r: Result<
    Vec<BookResponse>,
    AppError,
>)
    requires
        registry.repository().well_formed(),
    ensures
        !registry.repository().is_open() ==> r is Err,
        registry.repository().is_open() && registry.repository().serves_while_open() ==> r is Ok,
        r is Ok ==> responses_view(r->Ok_0@).to_multiset()
            == registry.repository().books().to_multiset(),
{
    let outcome = registry.book_repository().find_all();
    listing_outcome(outcome)
}

/// `POST /v1/books`. `decoded` is the request body as the framework decoded
/// it, or the client-error status it gave where it could not. A body that
/// did not decode leaves the registry as it was.
pub fn post_books<R: BookRepository>(
    registry: &mut AppRegistry<R>,
    decoded: Result<CreateBookRequest, u16>,
) -> (r: Response)
    requires
        old(registry).repository().well_formed(),
    ensures
        final(registry).repository().well_formed(),
        final(registry).repository().is_open() == old(registry).repository().is_open(),
        final(registry).repository().serves_while_open() == old(
            registry,
        ).repository().serves_while_open(),
        decoded is Err ==> r@ == empty_response(client_error_status(decoded->Err_0))
            && *final(registry) == *old(registry),
        decoded is Err ==> 400 <= r@.status < 500,
        decoded is Ok && old(registry).repository().is_open() && old(
            registry,
        ).repository().serves_while_open() && old(registry).repository().books().len() == 0
            ==> r@ == empty_response(STATUS_CREATED),
        decoded is Ok && !old(registry).repository().is_open() ==> r@ == empty_response(
            STATUS_INTERNAL_SERVER_ERROR,
        ),
        decoded is Ok ==> r@ == empty_response(STATUS_CREATED) || r@ == empty_response(
            STATUS_INTERNAL_SERVER_ERROR,
        ),
        decoded is Ok && r@.status == STATUS_CREATED ==> exists|id: u128|
            #[trigger] id_is_fresh(old(registry).repository().books(), id)
                && final(registry).repository().books() == old(
                registry,
            ).repository().books().push(decoded->Ok_0@.with_id(id)),
        decoded is Ok && r@.status != STATUS_CREATED ==> final(registry).repository().books()
            == old(registry).repository().books(),
{
    match decoded {
        Ok(req) => {
            let result = register_book(registry, req);
            respond_with_status(result)
        },
        Err(framework_status) => {
            let status = if STATUS_BAD_REQUEST <= framework_status && framework_status < 500 {
                framework_status
            } else {
                STATUS_BAD_REQUEST
            };
            Response { status, body: ResponseBody::Empty }
        },
    }
}

/// The response for a handler's status or error: an empty body either way.
pub fn respond_with_status(result: Result<u16, AppError>) -> (r: Response)
    ensures
        r@ == status_response(result),
{
    match result {
        Ok(status) => Response { status, body: ResponseBody::Empty },
        Err(e) => e.into_response(),
    }
}

/// The response for the listing handler's result: 200 with the entries, or
/// 500 with an empty body.
pub fn respond_with_listing(result: Result<Vec<BookResponse>, AppError>) -> (r: Response)
    ensures
        r@ == listing_response(
            match result {
                Ok(items) => Some(responses_view(items@)),
                Err(_) => None,
            },
        ),
{
    match result {
        Ok(items) => Response { status: STATUS_OK, body: ResponseBody::BookList(items) },
        Err(e) => e.into_response(),
    }
}

/// `GET /v1/books`: 200 with every stored book, or 500 with an empty body.
pub fn get_books<R: BookRepository>(registry: &AppRegistry<R>) -> (r: Response)
    requires
        registry.repository().well_formed(),
    ensures
        !registry.repository().is_open() ==> r@ == empty_response(STATUS_INTERNAL_SERVER_ERROR),
        registry.repository().is_open() && registry.repository().serves_while_open() ==> r@.status
            == STATUS_OK,
        registry.repository().is_open() && registry.repository().serves_while_open()
            && registry.repository().books().len() == 0 ==> r@ == (ResponseView {
            status: STATUS_OK,
            books: Some(Seq::<BookView>::empty()),
        }),
        r@ == empty_response(STATUS_INTERNAL_SERVER_ERROR) || (r@.status == STATUS_OK
            && r@.books is Some && r@.books->Some_0.to_multiset()
            == registry.repository().books().to_multiset()),
{
    let listed = show_book_list(registry);
    proof {
        if listed is Ok {
            let items = responses_view(listed->Ok_0@);
            vstd::seq_lib::to_multiset_len(items);
            vstd::seq_lib::to_multiset_len(registry.repository().books());
            if registry.repository().books().len() == 0 {
                assert(items =~= Seq::<BookView>::empty());
            }
        }
    }
    respond_with_listing(listed)
}

/// `GET /v1/health`: 200 with an empty body, whatever the state of storage.
pub fn get_health<R: BookRepository>(registry: &AppRegistry<R>) -> (r: Response)
    ensures
        r@ == empty_response(STATUS_OK),
{
    Response { status: STATUS_OK, body: ResponseBody::Empty }
}

} // verus!
