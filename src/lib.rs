//! A typed client library for the Discord Bot List API: endpoint URLs,
//! query builders for searches and widgets, the data model of the service's
//! JSON shapes, and one error type for every failure a call can meet.

pub mod builder;
pub mod endpoints;
pub mod error;
pub mod model;
pub mod outside;
pub mod request;

pub use self::error::{ApiError, ErrorKind, Result};
