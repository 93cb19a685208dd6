//! The operations that the HTTP surface is built on.

pub mod post;
