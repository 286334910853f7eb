//! Tower integration in which each request's response future holds a scope of its own.
pub mod layer;
pub mod service;
