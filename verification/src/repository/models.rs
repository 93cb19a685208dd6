//! The records that the table holds and accepts.

pub mod post;
