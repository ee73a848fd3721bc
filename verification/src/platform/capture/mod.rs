//! Capturing frames from the compositor.

pub mod dispatch;
pub mod wl_shared;
