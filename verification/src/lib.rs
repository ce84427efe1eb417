//! A verified core for a small article service: the article record, the
//! table that stores articles, the worker that answers commands against it,
//! and the mapping from command results to HTTP responses.

pub mod actors;
pub mod error;
pub mod handlers;
pub mod ident;
pub mod models;
pub mod store;
pub mod theorems;
