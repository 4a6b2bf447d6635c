//! Host-side resource discipline for a compute accelerator.
//!
//! The library decides which requests are made of the driver, in which
//! order and with which arguments, and what the failure of each one means.
//! It never talks to the accelerator itself: every operation hands back a
//! [`driver::plan::Plan`] that an executor carries out against the driver.
//!
//! - [`driver`] holds the device, its context and its registry of modules,
//!   the regions of device memory and the windows on them, the forked
//!   queues, the requests and the plans made of them, and what the
//!   accelerator makes of a sequence of requests.
//! - [`cudnn`] holds what the numeric library works on: tensors, filters,
//!   the gradients of a convolution, and operations with scratch memory.

pub mod cudnn;
pub mod driver;
