//! What the library decides about the platform it runs on.

pub mod capture;
pub mod system;
