//! Filters: a region of device memory that holds `C_OUT * C_IN * H * W`
//! elements, together with the descriptor of that shape.

use vstd::prelude::*;
use crate::cudnn::descriptor::{DescriptorKind, Dims, FilterDescriptor};
use crate::cudnn::shape::{flat4, flatten};
use crate::cudnn::shaped::{adopt, free, make, TensorView};
use crate::driver::call::{DataType, DriverCall};
use crate::driver::device::{CudaContext, CudaDevice};
use crate::driver::error::DeviceError;
use crate::driver::plan::Plan;
use crate::driver::slice::CudaSlice;

verus! {

/// A filter of `C_OUT * C_IN * H * W` elements laid out in that order: the
/// region that holds the elements and the descriptor of its shape.
#[derive(Debug)]
pub struct Filter<'c, T, const C_OUT: usize, const C_IN: usize, const H: usize, const W: usize> {
    descriptor: FilterDescriptor<T, C_OUT, C_IN, H, W>,
    data: CudaSlice<'c, T>,
}

impl<'c, T, const C_OUT: usize, const C_IN: usize, const H: usize, const W: usize> View for Filter<
    'c,
    T,
    C_OUT,
    C_IN,
    H,
    W,
> {
    type V = TensorView<T>;

    closed spec fn view(&self) -> TensorView<T> {
        TensorView { descriptor: self.descriptor@, data: self.data@ }
    }
}

impl<'c, T, const C_OUT: usize, const C_IN: usize, const H: usize, const W: usize> Filter<
    'c,
    T,
    C_OUT,
    C_IN,
    H,
    W,
> {
    #[verifier::type_invariant]
    pub open spec fn well_formed(&self) -> bool {
        self@.wf()
    }

    /// The shape of every filter of this type.
    pub open spec fn dims() -> Dims {
        Dims { n: C_OUT, c: C_IN, h: H, w: W }
    }

    /// Makes a filter of a region that holds its elements, and plans the
    /// descriptor of its shape.
    ///
    /// The region is handed back where it has not one element for each
    /// position of the shape, where it lives on another device, or where
    /// no descriptor can be made.
    pub fn create(
        allocation: CudaSlice<'c, T>,
        device: &mut CudaDevice,
        data_type: DataType,
    ) -> (r: Result<(Self, Plan), (CudaSlice<'c, T>, DeviceError)>)
        ensures
            final(device)@.wf(),
            match r {
                Ok((filter, plan)) => {
                    &&& old(device)@.adoption_refusal(allocation@, data_type, Self::dims()) is None
                    &&& final(device)@ == old(device)@.advanced(1)
                    &&& filter@ == old(device)@.adopted_tensor(
                        DescriptorKind::Filter,
                        allocation@,
                        data_type,
                        Self::dims(),
                    )
                    &&& plan@ == filter@.adopted()
                },
                Err((returned, e)) => {
                    &&& old(device)@.adoption_refusal(allocation@, data_type, Self::dims())
                        == Some(e)
                    &&& final(device)@ == old(device)@
                    &&& returned == allocation
                },
            },
    {
        let dims = Dims { n: C_OUT, c: C_IN, h: H, w: W };
        match adopt(DescriptorKind::Filter, dims, allocation, device, data_type) {
            Ok((handle, data, plan)) => Ok(
                (Filter { descriptor: FilterDescriptor::adopt(handle, data_type), data }, plan),
            ),
            Err(refused) => Err(refused),
        }
    }

    /// Reserves a region for a filter in `context` and plans the descriptor
    /// of its shape. What the region holds is unspecified until it is written.
    ///
    /// The request is refused where `context` is not the device's own,
    /// where the size of the region does not fit the address type, where
    /// `data_type` has not the size of `T`, where a dimension does not fit
    /// the numeric library's index type, or where the device has fewer than
    /// two handles left.
    pub fn alloc_uninit(
        device: &mut CudaDevice,
        context: &'c CudaContext,
        data_type: DataType,
    ) -> (r: Result<(Self, Plan), DeviceError>)
        ensures
            final(device)@.wf(),
            match r {
                Ok((filter, plan)) => {
                    &&& old(device)@.tensor_refusal::<T>(context@, data_type, Self::dims()) is None
                    &&& final(device)@ == old(device)@.advanced(2)
                    &&& filter@ == old(device)@.fresh_tensor::<T>(
                        DescriptorKind::Filter,
                        data_type,
                        Self::dims(),
                        None,
                    )
                    &&& plan@ == filter@.reserved()
                },
                Err(e) => {
                    &&& old(device)@.tensor_refusal::<T>(context@, data_type, Self::dims())
                        == Some(e)
                    &&& final(device)@ == old(device)@
                },
            },
    {
        let dims = Dims { n: C_OUT, c: C_IN, h: H, w: W };
        match make(DescriptorKind::Filter, dims, device, context, data_type, None) {
            Ok((handle, data, plan)) => Ok(
                (Filter { descriptor: FilterDescriptor::adopt(handle, data_type), data }, plan),
            ),
            Err(e) => Err(e),
        }
    }

    /// The handle that names the descriptor of the filter.
    pub fn get_descriptor(&self) -> (r: u64)
        ensures
            r == self@.descriptor.descriptor,
    {
        self.descriptor.get_descriptor()
    }

    /// The handle that names the region of the filter, for reading.
    pub fn get_data_ptr(&self) -> (r: u64)
        ensures
            r == self@.data.region,
    {
        self.data.region()
    }

    /// The handle that names the region of the filter, for writing.
    pub fn get_data_ptr_mut(&self) -> (r: u64)
        ensures
            r == self@.data.region,
    {
        self.data.region()
    }

    /// The region that holds the elements.
    pub fn data(&self) -> (r: &CudaSlice<'c, T>)
        ensures
            r@ == self@.data,
            self@.wf(),
    {
        proof {
            use_type_invariant(self);
        }
        &self.data
    }

    /// Reads the elements of the filter back to the host, after the
    /// device's queue has run dry.
    pub fn get_data(&self) -> (plan: Plan)
        ensures
            plan@ == self@.data.readback(),
    {
        self.data.to_host()
    }

    /// Gives the filter up: the descriptor is destroyed and the region is
    /// freed on its queue. Both requests must succeed.
    pub fn free(self) -> (plan: Plan)
        ensures
            plan@ == self@.freed(),
    {
        proof {
            self.descriptor.lemma_shape();
        }
        let destroy = DriverCall::DestroyFilterDescriptor {
            descriptor: self.descriptor.get_descriptor(),
        };
        free(destroy, self.data)
    }
}

impl<'c, T: Copy, const C_OUT: usize, const C_IN: usize, const H: usize, const W: usize> Filter<
    'c,
    T,
    C_OUT,
    C_IN,
    H,
    W,
> {
    /// Reserves a region for a filter in `context`, copies `value` into it in
    /// queue order, and plans the descriptor of its shape. The region keeps
    /// the elements of `value` as its mirror, in the order in which the
    /// region holds them.
    pub fn alloc_with(
        device: &mut CudaDevice,
        context: &'c CudaContext,
        data_type: DataType,
        value: [[[[T; W]; H]; C_IN]; C_OUT],
    ) -> (r: Result<(Self, Plan), DeviceError>)
        ensures
            final(device)@.wf(),
            match r {
                Ok((filter, plan)) => {
                    &&& old(device)@.tensor_refusal::<T>(context@, data_type, Self::dims()) is None
                    &&& final(device)@ == old(device)@.advanced(2)
                    &&& filter@ == old(device)@.fresh_tensor::<T>(
                        DescriptorKind::Filter,
                        data_type,
                        Self::dims(),
                        Some(flat4(value)),
                    )
                    &&& plan@ == filter@.uploaded()
                },
                Err(e) => {
                    &&& old(device)@.tensor_refusal::<T>(context@, data_type, Self::dims())
                        == Some(e)
                    &&& final(device)@ == old(device)@
                },
            },
    {
        let dims = Dims { n: C_OUT, c: C_IN, h: H, w: W };
        let flat: Vec<T> = flatten(&value);
        match make(DescriptorKind::Filter, dims, device, context, data_type, Some(flat)) {
            Ok((handle, data, plan)) => Ok(
                (Filter { descriptor: FilterDescriptor::adopt(handle, data_type), data }, plan),
            ),
            Err(e) => Err(e),
        }
    }
}

} // verus!
