//! Decision logic of a screenshot tool's platform layer.
//!
//! The library decides; it performs no input or output. Socket exchanges,
//! Wayland event queues and shared memory belong to the caller, which hands the
//! outcomes in as plain values and carries out what the library answers.
#![allow(unused_imports)]

pub mod domain;
pub mod platform;
