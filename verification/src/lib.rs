//! A small service around one resource, the post: the table that holds the
//! posts, the operations on it, and the replies that the HTTP surface gives.

pub mod api;
pub mod repository;
pub mod services;
pub mod types;
