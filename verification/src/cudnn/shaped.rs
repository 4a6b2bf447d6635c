//! What tensors and filters have in common: a region that holds the
//! elements of a shape, and the descriptor of that shape.

use vstd::prelude::*;
use vstd::layout::size_of;
use crate::cudnn::descriptor::{
    check_descriptor,
    plan_descriptor,
    DescriptorKind,
    DescriptorView,
    Dims,
};
use crate::cudnn::shape::element_count;
use crate::driver::call::{DataType, DriverCall};
use crate::driver::device::{ContextView, CudaContext, CudaDevice, DeviceView};
use crate::driver::error::DeviceError;
use crate::driver::plan::{OnFailure, Plan, PlanView};
use crate::driver::slice::{CudaSlice, SliceView};

verus! {

/// The mathematical content of a tensor or of a filter.
pub struct TensorView<T> {
    /// The descriptor of the shape.
    pub descriptor: DescriptorView,
    /// The region that holds the elements.
    pub data: SliceView<T>,
}

impl<T> TensorView<T> {
    /// What holds of every tensor and every filter: the region has one
    /// element for each position of the shape.
    pub open spec fn wf(self) -> bool {
        self.data.wf() && self.data.len == self.descriptor.dims.volume()
    }

    /// The plan that describes a region which is there already. Where the
    /// descriptor cannot be made, the region is given back.
    pub open spec fn adopted(self) -> PlanView {
        self.descriptor.made_after(
            PlanView { steps: Seq::empty(), release: seq![self.data.give_back()] },
        )
    }

    /// The plan that reserves the region and then describes it.
    pub open spec fn reserved(self) -> PlanView {
        self.descriptor.made_after(self.data.allocation())
    }

    /// The plan that reserves the region, fills it from its mirror and
    /// then describes it.
    pub open spec fn uploaded(self) -> PlanView {
        self.descriptor.made_after(self.data.upload())
    }

    /// The plan that gives everything up: the descriptor is destroyed and
    /// the region is freed on its queue. Both requests must succeed.
    pub open spec fn freed(self) -> PlanView {
        PlanView::uniform(
            seq![self.descriptor.destroy_call(), self.data.give_back()],
            OnFailure::Abort,
        )
    }
}

impl DeviceView {
    /// Why the device cannot describe `allocation` with this shape, or
    /// `None` where it can.
    pub open spec fn adoption_refusal<T>(
        self,
        allocation: SliceView<T>,
        data_type: DataType,
        dims: Dims,
    ) -> Option<DeviceError> {
        if allocation.len != dims.volume() {
            Some(DeviceError::ShapeMismatch)
        } else if !self.owns(allocation) {
            Some(DeviceError::ForeignHandle)
        } else {
            self.descriptor_refusal(size_of::<T>(), data_type, dims)
        }
    }

    /// Why the device cannot make a region of this shape in `context` and
    /// describe it, or `None` where it can.
    pub open spec fn tensor_refusal<T>(
        self,
        context: ContextView,
        data_type: DataType,
        dims: Dims,
    ) -> Option<DeviceError> {
        if context != self.context() {
            Some(DeviceError::ForeignHandle)
        } else if dims.volume() > usize::MAX || dims.volume() * size_of::<T>() > usize::MAX {
            Some(DeviceError::SizeOverflow)
        } else if size_of::<T>() != data_type.width() {
            Some(DeviceError::DataTypeMismatch)
        } else if !dims.indexable() {
            Some(DeviceError::DimensionOverflow)
        } else if self.next_handle + 2 > u64::MAX {
            Some(DeviceError::HandlesExhausted)
        } else {
            None
        }
    }

    /// What the device makes of `allocation`: the descriptor bears the
    /// next handle.
    pub open spec fn adopted_tensor<T>(
        self,
        kind: DescriptorKind,
        allocation: SliceView<T>,
        data_type: DataType,
        dims: Dims,
    ) -> TensorView<T> {
        TensorView { descriptor: self.fresh_descriptor(kind, data_type, dims), data: allocation }
    }

    /// What the device makes afresh: the region bears the next handle and
    /// the descriptor the one after.
    pub open spec fn fresh_tensor<T>(
        self,
        kind: DescriptorKind,
        data_type: DataType,
        dims: Dims,
        host: Option<Seq<T>>,
    ) -> TensorView<T> {
        TensorView {
            descriptor: self.advanced(1).fresh_descriptor(kind, data_type, dims),
            data: self.fresh_region::<T>(dims.volume() as usize, host),
        }
    }
}

/// Describes a region which is there already.
pub(crate) fn adopt<'c, T>(
    kind: DescriptorKind,
    dims: Dims,
    allocation: CudaSlice<'c, T>,
    device: &mut CudaDevice,
    data_type: DataType,
) -> (r: Result<(u64, CudaSlice<'c, T>, Plan), (CudaSlice<'c, T>, DeviceError)>)
    ensures
        final(device)@.wf(),
        match r {
            Ok((descriptor, data, plan)) => {
                &&& old(device)@.adoption_refusal(allocation@, data_type, dims) is None
                &&& final(device)@ == old(device)@.advanced(1)
                &&& data == allocation
                &&& descriptor == old(device)@.next_handle
                &&& plan@ == old(device)@.adopted_tensor(
                    kind,
                    allocation@,
                    data_type,
                    dims,
                ).adopted()
                &&& old(device)@.adopted_tensor(kind, allocation@, data_type, dims).wf()
            },
            Err((returned, e)) => {
                &&& old(device)@.adoption_refusal(allocation@, data_type, dims) == Some(e)
                &&& final(device)@ == old(device)@
                &&& returned == allocation
            },
        },
{
    proof {
        use_type_invariant(&*device);
    }
    let expected: Option<usize> = element_count(dims.n, dims.c, dims.h, dims.w);
    let len: usize = allocation.len();
    if expected.is_none() || expected.unwrap() != len {
        return Err((allocation, DeviceError::ShapeMismatch));
    }
    if !device.owns(&allocation) {
        return Err((allocation, DeviceError::ForeignHandle));
    }
    if let Some(e) = check_descriptor::<T>(device, data_type, dims) {
        return Err((allocation, e));
    }
    let handle: u64 = device.draw(1).unwrap();
    let mut plan = Plan::empty();
    plan.release.push(
        DriverCall::MemFreeAsync { region: allocation.region(), stream: allocation.stream() },
    );
    proof {
        assert(plan@.release =~= seq![allocation@.give_back()]);
    }
    plan_descriptor(&mut plan, kind, handle, data_type, dims);
    Ok((handle, allocation, plan))
}

/// Tells whether `device` can make a region of `len` elements in `context`
/// and describe it.
pub(crate) fn check_tensor<T>(
    device: &CudaDevice,
    context: &CudaContext,
    data_type: DataType,
    dims: Dims,
) -> (r: Result<usize, DeviceError>)
    ensures
        match r {
            Ok(len) => device@.tensor_refusal::<T>(context@, data_type, dims) is None && len
                == dims.volume(),
            Err(e) => device@.tensor_refusal::<T>(context@, data_type, dims) == Some(e),
        },
{
    if !device.governs(context) {
        return Err(DeviceError::ForeignHandle);
    }
    let len: usize = match element_count(dims.n, dims.c, dims.h, dims.w) {
        Some(len) => len,
        None => {
            return Err(DeviceError::SizeOverflow);
        },
    };
    if len.checked_mul(core::mem::size_of::<T>()).is_none() {
        return Err(DeviceError::SizeOverflow);
    }
    if core::mem::size_of::<T>() != data_type.size() {
        return Err(DeviceError::DataTypeMismatch);
    }
    if !dims.is_indexable() {
        return Err(DeviceError::DimensionOverflow);
    }
    if !device.has_handles(2) {
        return Err(DeviceError::HandlesExhausted);
    }
    Ok(len)
}

/// Reserves a region of this shape and describes it. With `host`, the
/// region is filled from it and keeps it as its mirror.
pub(crate) fn make<'c, T>(
    kind: DescriptorKind,
    dims: Dims,
    device: &mut CudaDevice,
    context: &'c CudaContext,
    data_type: DataType,
    host: Option<Vec<T>>,
) -> (r: Result<(u64, CudaSlice<'c, T>, Plan), DeviceError>)
    requires
        host matches Some(elements) ==> elements@.len() == dims.volume(),
    ensures
        final(device)@.wf(),
        match r {
            Ok((descriptor, data, plan)) => {
                let made = old(device)@.fresh_tensor::<T>(
                    kind,
                    data_type,
                    dims,
                    match host {
                        Some(elements) => Some(elements@),
                        None => None,
                    },
                );
                &&& old(device)@.tensor_refusal::<T>(context@, data_type, dims) is None
                &&& final(device)@ == old(device)@.advanced(2)
                &&& descriptor == made.descriptor.descriptor
                &&& data@ == made.data
                &&& made.wf()
                &&& plan@ == if host is Some {
                    made.uploaded()
                } else {
                    made.reserved()
                }
            },
            Err(e) => {
                &&& old(device)@.tensor_refusal::<T>(context@, data_type, dims) == Some(e)
                &&& final(device)@ == old(device)@
            },
        },
{
    proof {
        use_type_invariant(&*device);
    }
    let len: usize = match check_tensor::<T>(device, context, data_type, dims) {
        Ok(len) => len,
        Err(e) => {
            return Err(e);
        },
    };
    let reserved = match host {
        Some(elements) => device.allocate_from(context, elements),
        None => device.allocate::<T>(context, len),
    };
    let (data, mut plan) = reserved.unwrap();
    let handle: u64 = device.draw(1).unwrap();
    plan_descriptor(&mut plan, kind, handle, data_type, dims);
    Ok((handle, data, plan))
}

/// Gives a described region up: `destroy` destroys its descriptor.
pub(crate) fn free<T>(destroy: DriverCall, data: CudaSlice<'_, T>) -> (plan: Plan)
    ensures
        plan@ == PlanView::uniform(seq![destroy, data@.give_back()], OnFailure::Abort),
{
    let mut plan = Plan::empty();
    plan.push(destroy, OnFailure::Abort);
    plan.push(
        DriverCall::MemFreeAsync { region: data.region(), stream: data.stream() },
        OnFailure::Abort,
    );
    proof {
        assert(plan@.steps =~= PlanView::uniform(
            seq![destroy, data@.give_back()],
            OnFailure::Abort,
        ).steps);
    }
    plan
}

} // verus!
