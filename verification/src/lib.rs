//! Request-body descriptors for OpenAPI documents.
//!
//! Every kind of payload that a request handler can extract is given a
//! descriptor: the media type it arrives as, the schema of its content and
//! whether the body is mandatory.

pub mod body;
pub mod error;
pub mod identity;
pub mod laws;
pub mod resolve;
pub mod schema;
