//! Identification of WLMouse wireless mice and the report exchanges that read
//! their battery level and polling rate.
//!
//! The library decides; it performs no input or output. Each conversation
//! with the HID transport is a small machine: it names the next request,
//! takes the transport's reply, and moves on. The caller owns the device and
//! carries the requests out.

pub mod product;
pub mod report;
pub mod exchange;
pub mod locate;
pub mod mouse;

pub use crate::mouse::WLMouse;
pub use crate::product::WLMouseProduct;
