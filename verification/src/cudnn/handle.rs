//! The handles of what the numeric library keeps for itself.

use vstd::prelude::*;

verus! {

/// The handle that names a session with the numeric library. Whoever opens
/// the session draws the handle from the device.
#[derive(Clone, Copy, Debug, PartialEq, Eq, Structural)]
pub struct CudnnHandle(pub u64);

/// The handle that names the descriptor of a convolution: its padding, its
/// strides and its dilation. Whoever makes the descriptor draws the handle
/// from the device.
#[derive(Clone, Copy, Debug, PartialEq, Eq, Structural)]
pub struct ConvolutionDescriptor(pub u64);

} // verus!
