//! What the numeric library works on: tensors and filters with their
//! descriptors, the gradients of a convolution, and the scratch memory
//! that an operation needs for the strategy it picked.

pub mod conv;
pub mod descriptor;
pub mod filter;
pub mod handle;
pub mod shape;
pub mod shaped;
pub mod tensor;
pub mod workspace;
