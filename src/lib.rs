//! Bootstrap decisions for a Vulkan graphics context: which extensions and
//! layers an instance asks for, which adapter is chosen, which queues a
//! logical device requests, and the order in which everything is torn down.
//!
//! The driver calls themselves are made by the caller; this crate decides
//! what they are asked for and in which order.

pub mod vulkan;

pub mod error;
pub mod names;
pub mod selector;
pub mod validation;
pub mod device;
pub mod lifecycle;
