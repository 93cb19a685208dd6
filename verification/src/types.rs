//! Types shared by the layers of the service.

pub mod db;
pub mod text;
