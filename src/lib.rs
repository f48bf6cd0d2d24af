//! A small books service: the domain model, the repository contract with an
//! in-memory store, the HTTP handlers' decisions and the server's startup
//! lifecycle, each with a verified contract.

pub mod book;
pub mod repository;
pub mod model;
pub mod registry;
pub mod handler;
pub mod lemmas;
pub mod lifecycle;
pub mod dispatch;
