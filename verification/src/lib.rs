//! A small item service: a store of named items with auto-assigned
//! identifiers, the routing, validation, and error-to-status rules of its
//! HTTP surface, and the JSON encoding of its responses.

pub mod error;
pub mod http;
pub mod item;
pub mod json;
pub mod laws;
pub mod route;
pub mod store;

pub use error::AppError;
pub use item::Item;
pub use store::ItemStore;
