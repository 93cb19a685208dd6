//! The persisted side of the service: the post and the table of posts.

pub mod models;
pub mod table;
