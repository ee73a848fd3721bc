//! Types and text shared by every part of the library.

pub mod error;
pub mod text;
pub mod types;
