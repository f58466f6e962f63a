//! Typed records for a source-hosting platform's repository statistics, and a
//! builder for its search queries.
//!
//! Nothing here touches the network. A caller performs each request that an
//! [`Aggregation`] names and hands back what came of it as a [`Response`].

pub mod error;
pub mod json;
pub mod repository;
pub mod response;
pub mod search;

pub use error::{Error, Failure, Kind};
pub use json::{Json, Member, Number};
pub use repository::aggregation::{Aggregation, Step};
pub use repository::languages::LanguageMap;
pub use repository::releases::Release;
pub use repository::Repo;
pub use response::Response;
pub use search::Query;
