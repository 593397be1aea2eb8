//! Turns an abstract HTTP request description into a concrete request and
//! normalizes the response into plain data.

pub mod method;
pub mod request;
pub mod headers;
pub mod response;
pub mod text;
pub mod transport;
