//! Error-classification and response-mapping layer for an HTTP routing
//! pipeline: converts a route-level failure into a well-formed HTTP response
//! with the right status code and a JSON body, and always produces a response.

pub mod dispatch;
pub mod error;
pub mod response;
