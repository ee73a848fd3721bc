//! Compositors: which one is running, and what its replies mean.

pub mod compositor;
pub mod mango;
pub mod mango_ipc;
