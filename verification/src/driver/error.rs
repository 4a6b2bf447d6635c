//! The errors that the library itself detects.

use vstd::prelude::*;

verus! {

/// Why an operation was refused before anything was asked of the driver.
#[derive(Clone, Copy, Debug, PartialEq, Eq, Structural)]
pub enum DeviceError {
    /// The device index does not fit the driver's index type.
    InvalidOrdinal,
    /// The byte size of the region does not fit the machine's address type.
    SizeOverflow,
    /// The device has no handle left to name a new resource.
    HandlesExhausted,
    /// The resource, or the context, belongs to another device.
    ForeignHandle,
    /// The number of elements of the region differs from what the shape asks for.
    ShapeMismatch,
    /// The element size differs from that of the stated data type.
    DataTypeMismatch,
    /// A dimension of the shape does not fit the numeric library's index type.
    DimensionOverflow,
}

} // verus!
