//! A read-through cache of organization records.
//!
//! A record is a JSON document kept under the id of the organization it
//! describes. The first request for an id is answered from the registry and
//! the answer is kept; every later request is answered from the store.
//! Concurrent misses for one id share a single registry fetch.

pub mod error;
pub mod flights;
pub mod http;
pub mod machine;
pub mod records;
pub mod resolver;
pub mod source;
pub mod sqlite;
pub mod store;
