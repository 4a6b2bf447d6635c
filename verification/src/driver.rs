//! The device and what lives on it: regions of memory, queues and modules,
//! the requests that are made of the driver for them, and what the
//! accelerator makes of those requests.

pub mod call;
pub mod device;
pub mod error;
pub mod memory;
pub mod order;
pub mod plan;
pub mod range;
pub mod registry;
pub mod slice;
pub mod stream;
