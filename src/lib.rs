//! A client for the public researcher-identity API: it builds the request
//! URLs and reads the JSON documents that come back into typed, optional
//! fields, treating a missing branch of a document as an absent value rather
//! than as an error.

pub mod author;
pub mod client;
pub mod decimal;
pub mod json;
pub mod model;
