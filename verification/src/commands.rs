//! The commands: each turns a request into the events it causes, and the
//! events that were recorded back into the request's result.

pub mod bid;
pub mod comment;
pub mod create_product;
