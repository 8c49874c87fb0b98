//! Translation of request-handling failures into uniform HTTP error replies.
//!
//! Every failure that can end a request, a domain error of this service or a
//! signal of the surrounding web framework, maps to a status code and a message
//! that is safe to show to a client. The mapping is total and pure.

pub mod failure;
pub mod status;
pub mod translate;
pub mod laws;
