//! Tower integration in which the inner service receives each request together with its
//! scope.
pub mod layer;
pub mod service;
