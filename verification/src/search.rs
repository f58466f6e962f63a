//! Building queries for the platform's search.

pub mod query;

pub use query::{Query, QueryView};
