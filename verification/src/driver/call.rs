//! The requests that the library asks an executor to make of the driver.
//!
//! Every resource is named by a handle that the library draws itself; the
//! executor keeps the table from these names to whatever the driver returns.
//! Handle `0` names the driver's own default queue.

use vstd::prelude::*;

verus! {

/// The element types that the numeric library knows.
#[derive(Clone, Copy, Debug, PartialEq, Eq, Structural)]
pub enum DataType {
    /// 16-bit floating point.
    Half,
    /// 32-bit floating point.
    Float,
    /// 64-bit floating point.
    Double,
}

impl DataType {
    /// The size of one element, in bytes.
    pub open spec fn width(self) -> nat {
        match self {
            DataType::Half => 2,
            DataType::Float => 4,
            DataType::Double => 8,
        }
    }

    /// The size of one element, in bytes.
    pub fn size(&self) -> (n: usize)
        ensures
            n == self.width(),
    {
        match self {
            DataType::Half => 2,
            DataType::Float => 4,
            DataType::Double => 8,
        }
    }
}

/// A coefficient by which an operation scales an operand.
#[derive(Clone, Copy, Debug, PartialEq, Eq, Structural)]
pub enum Scale {
    /// The operand is dropped.
    Zero,
    /// The operand is taken as it is.
    One,
}

/// One request to the driver or to the numeric library.
#[derive(Clone, Copy, Debug, PartialEq, Eq, Structural)]
pub enum DriverCall {
    /// Initialise the driver.
    Init,
    /// Resolve the device with this index.
    DeviceGet { ordinal: i32 },
    /// Retain the primary context of the device.
    PrimaryCtxRetain,
    /// Make the retained context current.
    CtxSetCurrent,
    /// Create the device's synchronisation event, with timing disabled.
    EventCreate,
    /// Destroy the device's synchronisation event.
    EventDestroy,
    /// Release the primary context of the device.
    PrimaryCtxRelease,
    /// Create a queue that does not block on the default queue.
    StreamCreate { stream: u64 },
    /// Destroy a queue.
    StreamDestroy { stream: u64 },
    /// Block the calling thread until the queue has run dry.
    StreamSynchronize { stream: u64 },
    /// Record the device's event at the current end of the queue.
    EventRecord { stream: u64 },
    /// Make the queue wait for what the device's event last recorded.
    StreamWaitEvent { stream: u64 },
    /// Allocate a region of `bytes` bytes, in queue order.
    MemAllocAsync { region: u64, bytes: usize, stream: u64 },
    /// Free a region, in queue order.
    MemFreeAsync { region: u64, stream: u64 },
    /// Copy `bytes` bytes from the host mirror of the region into it, in queue order.
    MemcpyHtoDAsync { region: u64, bytes: usize, stream: u64 },
    /// Copy `bytes` bytes of the region back to the host, blocking the calling thread.
    MemcpyDtoH { region: u64, bytes: usize },
    /// Copy `bytes` bytes from region `src` to region `dst`, in queue order.
    MemcpyDtoDAsync { src: u64, dst: u64, bytes: usize, stream: u64 },
    /// Set each of the `count` elements of the region to the scalar that the
    /// caller hands to the executor, in queue order.
    FillAsync { region: u64, count: usize, stream: u64 },
    /// Load the compiled code of a module.
    ModuleLoad { module: u64 },
    /// Resolve one function of a loaded module.
    ModuleGetFunction { module: u64, function: u64 },
    /// Unload a module.
    ModuleUnload { module: u64 },
    /// Create a tensor descriptor.
    CreateTensorDescriptor { descriptor: u64 },
    /// Describe a tensor of `n * c * h * w` elements, laid out in that order.
    SetTensor4dDescriptor { descriptor: u64, data_type: DataType, n: i32, c: i32, h: i32, w: i32 },
    /// Destroy a tensor descriptor.
    DestroyTensorDescriptor { descriptor: u64 },
    /// Create a filter descriptor.
    CreateFilterDescriptor { descriptor: u64 },
    /// Describe a filter of `k * c * h * w` elements, laid out in that order.
    SetFilter4dDescriptor { descriptor: u64, data_type: DataType, k: i32, c: i32, h: i32, w: i32 },
    /// Destroy a filter descriptor.
    DestroyFilterDescriptor { descriptor: u64 },
    /// Set every element of the described tensor to the scalar that the
    /// caller hands to the executor.
    SetTensor { handle: u64, descriptor: u64, region: u64 },
    /// Ask for the best `requested` strategies to compute the input gradient.
    FindBackwardDataAlgorithm {
        handle: u64,
        filter: u64,
        dy: u64,
        convolution: u64,
        dx: u64,
        requested: i32,
    },
    /// Ask how much scratch memory a strategy for the input gradient needs.
    BackwardDataWorkspaceSize {
        handle: u64,
        filter: u64,
        dy: u64,
        convolution: u64,
        dx: u64,
        algorithm: u32,
    },
    /// Compute the input gradient: `dx = alpha * result + beta * dx`.
    ConvolutionBackwardData {
        handle: u64,
        alpha: Scale,
        filter: u64,
        filter_data: u64,
        dy: u64,
        dy_data: u64,
        convolution: u64,
        algorithm: u32,
        workspace: u64,
        workspace_size: usize,
        beta: Scale,
        dx: u64,
        dx_data: u64,
    },
    /// Ask for the best `requested` strategies to compute the filter gradient.
    FindBackwardFilterAlgorithm {
        handle: u64,
        x: u64,
        dy: u64,
        convolution: u64,
        dw: u64,
        requested: i32,
    },
    /// Ask how much scratch memory a strategy for the filter gradient needs.
    BackwardFilterWorkspaceSize {
        handle: u64,
        x: u64,
        dy: u64,
        convolution: u64,
        dw: u64,
        algorithm: u32,
    },
    /// Compute the filter gradient: `dw = alpha * result + beta * dw`.
    ConvolutionBackwardFilter {
        handle: u64,
        alpha: Scale,
        x: u64,
        x_data: u64,
        dy: u64,
        dy_data: u64,
        convolution: u64,
        algorithm: u32,
        workspace: u64,
        workspace_size: usize,
        beta: Scale,
        dw: u64,
        dw_data: u64,
    },
}

} // verus!
