use bookshelf::book::{Book, BookId, CreateBook};
use bookshelf::handler::{
    get_books, get_health, listing_outcome, post_books, register_book, registration_outcome,
    respond_with_listing, respond_with_status, show_book_list, AppError, Response, ResponseBody,
};
use bookshelf::model::{BookResponse, CreateBookRequest};
use bookshelf::registry::AppRegistry;
use bookshelf::repository::{BookRepository, InMemoryBookRepository, RepositoryError};

fn request(title: &str, author: &str, isbn: &str, description: &str) -> CreateBookRequest {
    CreateBookRequest {
        title: title.to_string(),
        author: author.to_string(),
        isbn: isbn.to_string(),
        description: description.to_string(),
    }
}

fn event(title: &str) -> CreateBook {
    CreateBook {
        title: title.to_string(),
        author: "A".to_string(),
        isbn: "978-0".to_string(),
        description: "D".to_string(),
    }
}

fn fresh_registry() -> AppRegistry<InMemoryBookRepository> {
    AppRegistry::new(InMemoryBookRepository::new())
}

fn listed(response: &Response) -> &Vec<BookResponse> {
    match &response.body {
        ResponseBody::BookList(items) => items,
        ResponseBody::Empty => panic!("expected a book list"),
    }
}

fn is_empty_body(response: &Response) -> bool {
    matches!(response.body, ResponseBody::Empty)
}

#[test]
fn post_then_list_returns_the_book() {
    let mut registry = fresh_registry();
    let created = post_books(&mut registry, Ok(request("T", "A", "978-0", "D")));
    assert_eq!(created.status, 201);
    assert!(is_empty_body(&created));
    let list = get_books(&registry);
    assert_eq!(list.status, 200);
    let items = listed(&list);
    assert_eq!(items.len(), 1);
    assert_eq!(items[0].title, "T");
    assert_eq!(items[0].author, "A");
    assert_eq!(items[0].isbn, "978-0");
    assert_eq!(items[0].description, "D");
}

#[test]
fn fresh_store_lists_nothing() {
    let registry = fresh_registry();
    let list = get_books(&registry);
    assert_eq!(list.status, 200);
    assert!(listed(&list).is_empty());
}

#[test]
fn undecodable_body_is_rejected_and_stores_nothing() {
    let mut registry = fresh_registry();
    let rejected = post_books(&mut registry, Err(400));
    assert_eq!(rejected.status, 400);
    assert!(is_empty_body(&rejected));
    let list = get_books(&registry);
    assert_eq!(list.status, 200);
    assert!(listed(&list).is_empty());
}

#[test]
fn framework_client_error_status_is_kept() {
    let mut registry = fresh_registry();
    assert_eq!(post_books(&mut registry, Err(422)).status, 422);
    assert_eq!(post_books(&mut registry, Err(415)).status, 415);
}

#[test]
fn non_client_error_status_from_decoding_becomes_bad_request() {
    let mut registry = fresh_registry();
    assert_eq!(post_books(&mut registry, Err(200)).status, 400);
    assert_eq!(post_books(&mut registry, Err(500)).status, 400);
    assert_eq!(registry.book_repository().len(), 0);
}

#[test]
fn identical_posts_both_succeed_with_distinct_ids() {
    let mut registry = fresh_registry();
    let first = post_books(&mut registry, Ok(request("T", "A", "978-0", "D")));
    let second = post_books(&mut registry, Ok(request("T", "A", "978-0", "D")));
    assert_eq!(first.status, 201);
    assert_eq!(second.status, 201);
    let list = get_books(&registry);
    let items = listed(&list);
    assert_eq!(items.len(), 2);
    assert_ne!(items[0].id, items[1].id);
}

#[test]
fn closed_store_answers_post_with_internal_error() {
    let mut store = InMemoryBookRepository::new();
    store.close();
    let mut registry = AppRegistry::new(store);
    let response = post_books(&mut registry, Ok(request("T", "A", "978-0", "D")));
    assert_eq!(response.status, 500);
    assert!(is_empty_body(&response));
    assert_eq!(registry.book_repository().len(), 0);
}

#[test]
fn closed_store_answers_get_with_internal_error() {
    let mut store = InMemoryBookRepository::new();
    store.close();
    let registry = AppRegistry::new(store);
    let response = get_books(&registry);
    assert_eq!(response.status, 500);
    assert!(is_empty_body(&response));
}

#[test]
fn health_is_ok() {
    let registry = fresh_registry();
    let response = get_health(&registry);
    assert_eq!(response.status, 200);
    assert!(is_empty_body(&response));
}

#[test]
fn health_is_ok_with_closed_store() {
    let mut store = InMemoryBookRepository::new();
    store.close();
    let registry = AppRegistry::new(store);
    assert_eq!(get_health(&registry).status, 200);
}

#[test]
fn register_book_returns_created() {
    let mut registry = fresh_registry();
    assert_eq!(register_book(&mut registry, request("T", "A", "1", "D")), Ok(201));
    assert_eq!(registry.book_repository().len(), 1);
}

#[test]
fn register_book_on_closed_store_is_internal_error() {
    let mut store = InMemoryBookRepository::new();
    store.close();
    let mut registry = AppRegistry::new(store);
    assert_eq!(
        register_book(&mut registry, request("T", "A", "1", "D")),
        Err(AppError::InternalError(RepositoryError::StorageFailure))
    );
}

#[test]
fn show_book_list_keeps_insertion_order() {
    let mut registry = fresh_registry();
    register_book(&mut registry, request("first", "A", "1", "D")).unwrap();
    register_book(&mut registry, request("second", "B", "2", "E")).unwrap();
    let items = show_book_list(&registry).unwrap();
    assert_eq!(items.len(), 2);
    assert_eq!(items[0].title, "first");
    assert_eq!(items[1].title, "second");
    assert_eq!(items[1].author, "B");
}

#[test]
fn store_refuses_a_taken_id() {
    let mut store = InMemoryBookRepository::new();
    assert_eq!(store.insert_with_id(event("x"), BookId { value: 7 }), Ok(()));
    assert_eq!(
        store.insert_with_id(event("y"), BookId { value: 7 }),
        Err(RepositoryError::StorageFailure)
    );
    assert_eq!(store.len(), 1);
    assert!(store.contains_id(BookId { value: 7 }));
    assert!(!store.contains_id(BookId { value: 8 }));
}

#[test]
fn store_lists_with_given_ids() {
    let mut store = InMemoryBookRepository::new();
    store.insert_with_id(event("x"), BookId { value: 3 }).unwrap();
    store.insert_with_id(event("y"), BookId { value: 1 }).unwrap();
    let books = store.list().unwrap();
    assert_eq!(books[0].id, BookId { value: 3 });
    assert_eq!(books[0].title, "x");
    assert_eq!(books[1].id, BookId { value: 1 });
    assert_eq!(books[1].title, "y");
}

#[test]
fn closed_store_fails_every_call() {
    let mut store = InMemoryBookRepository::new();
    store.insert_with_id(event("x"), BookId { value: 3 }).unwrap();
    store.close();
    assert!(!store.is_open());
    assert!(store.list().is_err());
    assert!(store.insert_with_id(event("y"), BookId { value: 4 }).is_err());
    assert!(store.find_all().is_err());
    assert!(store.create(event("z")).is_err());
    assert_eq!(store.len(), 1);
}

#[test]
fn created_ids_are_random_version_four_uuids() {
    let mut store = InMemoryBookRepository::new();
    store.create(event("x")).unwrap();
    store.create(event("y")).unwrap();
    let books = store.find_all().unwrap();
    for b in &books {
        assert_eq!((b.id.value >> 76) & 0xf, 4);
        assert_eq!((b.id.value >> 62) & 0x3, 2);
    }
    assert_ne!(books[0].id, books[1].id);
}

#[test]
fn registration_outcome_maps_each_result() {
    assert_eq!(registration_outcome(Ok(())), Ok(201));
    assert_eq!(
        registration_outcome(Err(RepositoryError::StorageFailure)),
        Err(AppError::InternalError(RepositoryError::StorageFailure))
    );
}

#[test]
fn listing_outcome_converts_in_order() {
    let books = vec![
        Book {
            id: BookId { value: 9 },
            title: "t".to_string(),
            author: "a".to_string(),
            isbn: "i".to_string(),
            description: "d".to_string(),
        },
        Book {
            id: BookId { value: 2 },
            title: "u".to_string(),
            author: "b".to_string(),
            isbn: "j".to_string(),
            description: "e".to_string(),
        },
    ];
    let items = listing_outcome(Ok(books)).unwrap();
    assert_eq!(items.len(), 2);
    assert_eq!(items[0].id, BookId { value: 9 });
    assert_eq!(items[0].isbn, "i");
    assert_eq!(items[1].id, BookId { value: 2 });
    assert_eq!(items[1].description, "e");
    assert!(matches!(
        listing_outcome(Err(RepositoryError::StorageFailure)),
        Err(AppError::InternalError(RepositoryError::StorageFailure))
    ));
}

#[test]
fn responses_for_results() {
    let created = respond_with_status(Ok(201));
    assert_eq!(created.status, 201);
    assert!(is_empty_body(&created));
    let failed = respond_with_status(Err(AppError::InternalError(RepositoryError::StorageFailure)));
    assert_eq!(failed.status, 500);
    assert!(is_empty_body(&failed));
    let empty_list = respond_with_listing(Ok(Vec::new()));
    assert_eq!(empty_list.status, 200);
    assert!(listed(&empty_list).is_empty());
    let failed_list = respond_with_listing(Err(AppError::InternalError(RepositoryError::StorageFailure)));
    assert_eq!(failed_list.status, 500);
    assert!(is_empty_body(&failed_list));
}

#[test]
fn app_error_is_an_empty_internal_error() {
    let response = AppError::InternalError(RepositoryError::StorageFailure).into_response();
    assert_eq!(response.status, 500);
    assert!(is_empty_body(&response));
}

#[test]
fn request_converts_to_event_field_for_field() {
    let e = CreateBook::from(request("T", "A", "978-0", "D"));
    assert_eq!(e.title, "T");
    assert_eq!(e.author, "A");
    assert_eq!(e.isbn, "978-0");
    assert_eq!(e.description, "D");
}

#[test]
fn book_converts_to_response_field_for_field() {
    let book = Book {
        id: BookId { value: 42 },
        title: "T".to_string(),
        author: "A".to_string(),
        isbn: "978-0".to_string(),
        description: "D".to_string(),
    };
    let r = BookResponse::from(book.duplicate());
    assert_eq!(r.id, BookId { value: 42 });
    assert_eq!(r.title, "T");
    assert_eq!(r.author, "A");
    assert_eq!(r.isbn, "978-0");
    assert_eq!(r.description, "D");
}
