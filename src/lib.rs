//! A client core for the AI Stats models listing endpoint: a read-only
//! connection configuration, the encoding of a list request into an HTTP
//! request description, and the decoding of the response into a typed result
//! or a typed error. Sending the request is left to the caller's transport.
pub mod decimal;
pub mod config;
pub mod request;
pub mod response;
