//! The HTTP surface: what each endpoint answers, as plain values.

pub mod post;
pub mod reply;
pub mod route;
pub mod test;
