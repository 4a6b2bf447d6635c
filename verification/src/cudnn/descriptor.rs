//! Descriptors: what tells the numeric library the shape and the element
//! type of a tensor or of a filter.

use vstd::prelude::*;
use vstd::layout::size_of;
use crate::cudnn::shape::volume;
use crate::driver::call::{DataType, DriverCall};
use crate::driver::device::{CudaDevice, DeviceView};
use crate::driver::error::DeviceError;
use crate::driver::plan::{OnFailure, Plan, PlanView, Step};

verus! {

/// What a descriptor describes.
#[derive(Clone, Copy, Debug, PartialEq, Eq, Structural)]
pub enum DescriptorKind {
    /// A tensor of `n * c * h * w` elements.
    Tensor,
    /// A filter of `n` output channels and `c` input channels, `h * w` each.
    Filter,
}

/// The four dimensions of a shape, outermost first.
#[derive(Clone, Copy, Debug, PartialEq, Eq, Structural)]
pub struct Dims {
    pub n: usize,
    pub c: usize,
    pub h: usize,
    pub w: usize,
}

impl Dims {
    /// The number of elements of the shape.
    pub open spec fn volume(self) -> int {
        volume(self.n, self.c, self.h, self.w)
    }

    /// Whether every dimension fits the numeric library's index type.
    pub open spec fn indexable(self) -> bool {
        self.n <= i32::MAX && self.c <= i32::MAX && self.h <= i32::MAX && self.w <= i32::MAX
    }

    /// Whether every dimension fits the numeric library's index type.
    pub fn is_indexable(&self) -> (r: bool)
        ensures
            r == self.indexable(),
    {
        self.n <= i32::MAX as usize && self.c <= i32::MAX as usize && self.h <= i32::MAX as usize
            && self.w <= i32::MAX as usize
    }
}

/// The mathematical content of a descriptor.
pub struct DescriptorView {
    /// What is described.
    pub kind: DescriptorKind,
    /// The handle that names the descriptor.
    pub descriptor: u64,
    /// The element type.
    pub data_type: DataType,
    /// The shape.
    pub dims: Dims,
}

/// The mark of a step that has acquired nothing itself while `held`
/// releases stand for what was acquired before it.
pub open spec fn giving_back(held: nat) -> OnFailure {
    if held == 0 {
        OnFailure::Surface
    } else {
        OnFailure::Release(held as usize)
    }
}

impl DescriptorView {
    /// The request that makes the descriptor.
    pub open spec fn create_call(self) -> DriverCall {
        match self.kind {
            DescriptorKind::Tensor => DriverCall::CreateTensorDescriptor {
                descriptor: self.descriptor,
            },
            DescriptorKind::Filter => DriverCall::CreateFilterDescriptor {
                descriptor: self.descriptor,
            },
        }
    }

    /// The request that sets the shape and the element type.
    pub open spec fn set_call(self) -> DriverCall {
        match self.kind {
            DescriptorKind::Tensor => DriverCall::SetTensor4dDescriptor {
                descriptor: self.descriptor,
                data_type: self.data_type,
                n: self.dims.n as i32,
                c: self.dims.c as i32,
                h: self.dims.h as i32,
                w: self.dims.w as i32,
            },
            DescriptorKind::Filter => DriverCall::SetFilter4dDescriptor {
                descriptor: self.descriptor,
                data_type: self.data_type,
                k: self.dims.n as i32,
                c: self.dims.c as i32,
                h: self.dims.h as i32,
                w: self.dims.w as i32,
            },
        }
    }

    /// The request that destroys the descriptor.
    pub open spec fn destroy_call(self) -> DriverCall {
        match self.kind {
            DescriptorKind::Tensor => DriverCall::DestroyTensorDescriptor {
                descriptor: self.descriptor,
            },
            DescriptorKind::Filter => DriverCall::DestroyFilterDescriptor {
                descriptor: self.descriptor,
            },
        }
    }

    /// The plan that follows `before` with the making of the descriptor.
    ///
    /// Where the descriptor cannot be made, what `before` acquired is given
    /// back; where its shape cannot be set, the descriptor is destroyed
    /// first. Either failure is reported.
    pub open spec fn made_after(self, before: PlanView) -> PlanView {
        PlanView {
            steps: before.steps + seq![
                Step { call: self.create_call(), on_failure: giving_back(before.release.len()) },
                Step {
                    call: self.set_call(),
                    on_failure: OnFailure::Release((before.release.len() + 1) as usize),
                },
            ],
            release: seq![self.destroy_call()] + before.release,
        }
    }

    /// The plan that makes the descriptor by itself.
    pub open spec fn made(self) -> PlanView {
        self.made_after(PlanView { steps: Seq::empty(), release: Seq::empty() })
    }

    /// The plan that destroys the descriptor. The request must succeed.
    pub open spec fn destroyed(self) -> PlanView {
        PlanView::uniform(seq![self.destroy_call()], OnFailure::Abort)
    }
}

impl DeviceView {
    /// Why the device cannot make a descriptor for elements of `width`
    /// bytes, or `None` where it can.
    pub open spec fn descriptor_refusal(
        self,
        width: nat,
        data_type: DataType,
        dims: Dims,
    ) -> Option<DeviceError> {
        if width != data_type.width() {
            Some(DeviceError::DataTypeMismatch)
        } else if !dims.indexable() {
            Some(DeviceError::DimensionOverflow)
        } else if self.next_handle == u64::MAX {
            Some(DeviceError::HandlesExhausted)
        } else {
            None
        }
    }

    /// The descriptor that the device makes next.
    pub open spec fn fresh_descriptor(
        self,
        kind: DescriptorKind,
        data_type: DataType,
        dims: Dims,
    ) -> DescriptorView {
        DescriptorView { kind, descriptor: self.next_handle, data_type, dims }
    }
}

/// Tells whether `device` can make a descriptor for elements of type `T`.
pub(crate) fn check_descriptor<T>(
    device: &CudaDevice,
    data_type: DataType,
    dims: Dims,
) -> (r: Option<DeviceError>)
    ensures
        r == device@.descriptor_refusal(size_of::<T>(), data_type, dims),
{
    if core::mem::size_of::<T>() != data_type.size() {
        Some(DeviceError::DataTypeMismatch)
    } else if !dims.is_indexable() {
        Some(DeviceError::DimensionOverflow)
    } else if !device.has_handles(1) {
        Some(DeviceError::HandlesExhausted)
    } else {
        None
    }
}

/// Follows `plan` with the making of a descriptor under `handle`.
pub(crate) fn plan_descriptor(
    plan: &mut Plan,
    kind: DescriptorKind,
    handle: u64,
    data_type: DataType,
    dims: Dims,
)
    requires
        dims.indexable(),
        old(plan)@.release.len() < usize::MAX,
    ensures
        final(plan)@ == (DescriptorView { kind, descriptor: handle, data_type, dims }).made_after(
            old(plan)@,
        ),
{
    let held: usize = plan.release.len();
    let n: i32 = dims.n as i32;
    let c: i32 = dims.c as i32;
    let h: i32 = dims.h as i32;
    let w: i32 = dims.w as i32;
    let (create, set, destroy) = match kind {
        DescriptorKind::Tensor => (
            DriverCall::CreateTensorDescriptor { descriptor: handle },
            DriverCall::SetTensor4dDescriptor { descriptor: handle, data_type, n, c, h, w },
            DriverCall::DestroyTensorDescriptor { descriptor: handle },
        ),
        DescriptorKind::Filter => (
            DriverCall::CreateFilterDescriptor { descriptor: handle },
            DriverCall::SetFilter4dDescriptor { descriptor: handle, data_type, k: n, c, h, w },
            DriverCall::DestroyFilterDescriptor { descriptor: handle },
        ),
    };
    let first: OnFailure = if held == 0 {
        OnFailure::Surface
    } else {
        OnFailure::Release(held)
    };
    plan.push(create, first);
    plan.push(set, OnFailure::Release(held + 1));
    plan.release.insert(0, destroy);
    proof {
        let view = DescriptorView { kind, descriptor: handle, data_type, dims };
        assert(plan@.steps =~= view.made_after(old(plan)@).steps);
        assert(plan@.release =~= view.made_after(old(plan)@).release);
    }
}

/// The shape of a tensor with `N * C * H * W` elements of type `T`, as the
/// numeric library knows it.
#[derive(Debug)]
pub struct TensorDescriptor<T, const N: usize, const C: usize, const H: usize, const W: usize> {
    descriptor: u64,
    data_type: DataType,
    element: core::marker::PhantomData<T>,
}

/// The shape of a filter with `C_OUT * C_IN * H * W` elements of type `T`,
/// as the numeric library knows it.
#[derive(Debug)]
pub struct FilterDescriptor<
    T,
    const C_OUT: usize,
    const C_IN: usize,
    const H: usize,
    const W: usize,
> {
    descriptor: u64,
    data_type: DataType,
    element: core::marker::PhantomData<T>,
}

impl<T, const N: usize, const C: usize, const H: usize, const W: usize> View for TensorDescriptor<
    T,
    N,
    C,
    H,
    W,
> {
    type V = DescriptorView;

    closed spec fn view(&self) -> DescriptorView {
        DescriptorView {
            kind: DescriptorKind::Tensor,
            descriptor: self.descriptor,
            data_type: self.data_type,
            dims: Dims { n: N, c: C, h: H, w: W },
        }
    }
}

impl<
    T,
    const C_OUT: usize,
    const C_IN: usize,
    const H: usize,
    const W: usize,
> View for FilterDescriptor<T, C_OUT, C_IN, H, W> {
    type V = DescriptorView;

    closed spec fn view(&self) -> DescriptorView {
        DescriptorView {
            kind: DescriptorKind::Filter,
            descriptor: self.descriptor,
            data_type: self.data_type,
            dims: Dims { n: C_OUT, c: C_IN, h: H, w: W },
        }
    }
}

impl<T, const N: usize, const C: usize, const H: usize, const W: usize> TensorDescriptor<
    T,
    N,
    C,
    H,
    W,
> {
    /// Plans a descriptor for this shape and `data_type`, under a fresh handle.
    ///
    /// The request is refused where `data_type` has not the size of `T`,
    /// where a dimension does not fit the numeric library's index type, or
    /// where the device has no handle left.
    pub fn create(device: &mut CudaDevice, data_type: DataType) -> (r: Result<
        (Self, Plan),
        DeviceError,
    >)
        ensures
            final(device)@.wf(),
            match r {
                Ok((descriptor, plan)) => {
                    &&& old(device)@.descriptor_refusal(
                        size_of::<T>(),
                        data_type,
                        Dims { n: N, c: C, h: H, w: W },
                    ) is None
                    &&& final(device)@ == old(device)@.advanced(1)
                    &&& descriptor@ == old(device)@.fresh_descriptor(
                        DescriptorKind::Tensor,
                        data_type,
                        Dims { n: N, c: C, h: H, w: W },
                    )
                    &&& plan@ == descriptor@.made()
                },
                Err(e) => {
                    &&& old(device)@.descriptor_refusal(
                        size_of::<T>(),
                        data_type,
                        Dims { n: N, c: C, h: H, w: W },
                    ) == Some(e)
                    &&& final(device)@ == old(device)@
                },
            },
    {
        proof {
            use_type_invariant(&*device);
        }
        let dims = Dims { n: N, c: C, h: H, w: W };
        if let Some(e) = check_descriptor::<T>(device, data_type, dims) {
            return Err(e);
        }
        let handle: u64 = device.draw(1).unwrap();
        let mut plan = Plan::empty();
        plan_descriptor(&mut plan, DescriptorKind::Tensor, handle, data_type, dims);
        let descriptor = TensorDescriptor {
            descriptor: handle,
            data_type,
            element: core::marker::PhantomData,
        };
        Ok((descriptor, plan))
    }

    /// A descriptor of this type describes a tensor of the shape that
    /// the type names.
    pub proof fn lemma_shape(&self)
        ensures
            self@.kind == DescriptorKind::Tensor,
            self@.dims == (Dims { n: N, c: C, h: H, w: W }),
    {
    }

    /// Takes a handle that was drawn for a descriptor of this shape.
    pub(crate) fn adopt(descriptor: u64, data_type: DataType) -> (r: Self)
        ensures
            r@ == (DescriptorView {
                kind: DescriptorKind::Tensor,
                descriptor,
                data_type,
                dims: Dims { n: N, c: C, h: H, w: W },
            }),
    {
        TensorDescriptor { descriptor, data_type, element: core::marker::PhantomData }
    }

    /// The handle that names the descriptor.
    pub fn get_descriptor(&self) -> (r: u64)
        ensures
            r == self@.descriptor,
    {
        self.descriptor
    }

    /// The element type.
    pub fn data_type(&self) -> (r: DataType)
        ensures
            r == self@.data_type,
    {
        self.data_type
    }

    /// Gives the descriptor up. The request must succeed.
    pub fn destroy(self) -> (plan: Plan)
        ensures
            plan@ == self@.destroyed(),
    {
        let mut plan = Plan::empty();
        plan.push(
            DriverCall::DestroyTensorDescriptor { descriptor: self.descriptor },
            OnFailure::Abort,
        );
        proof {
            assert(plan@.steps =~= self@.destroyed().steps);
        }
        plan
    }
}

impl<T, const C_OUT: usize, const C_IN: usize, const H: usize, const W: usize> FilterDescriptor<
    T,
    C_OUT,
    C_IN,
    H,
    W,
> {
    /// Plans a descriptor for this shape and `data_type`, under a fresh handle.
    ///
    /// The request is refused where `data_type` has not the size of `T`,
    /// where a dimension does not fit the numeric library's index type, or
    /// where the device has no handle left.
    pub fn create(device: &mut CudaDevice, data_type: DataType) -> (r: Result<
        (Self, Plan),
        DeviceError,
    >)
        ensures
            final(device)@.wf(),
            match r {
                Ok((descriptor, plan)) => {
                    &&& old(device)@.descriptor_refusal(
                        size_of::<T>(),
                        data_type,
                        Dims { n: C_OUT, c: C_IN, h: H, w: W },
                    ) is None
                    &&& final(device)@ == old(device)@.advanced(1)
                    &&& descriptor@ == old(device)@.fresh_descriptor(
                        DescriptorKind::Filter,
                        data_type,
                        Dims { n: C_OUT, c: C_IN, h: H, w: W },
                    )
                    &&& plan@ == descriptor@.made()
                },
                Err(e) => {
                    &&& old(device)@.descriptor_refusal(
                        size_of::<T>(),
                        data_type,
                        Dims { n: C_OUT, c: C_IN, h: H, w: W },
                    ) == Some(e)
                    &&& final(device)@ == old(device)@
                },
            },
    {
        proof {
            use_type_invariant(&*device);
        }
        let dims = Dims { n: C_OUT, c: C_IN, h: H, w: W };
        if let Some(e) = check_descriptor::<T>(device, data_type, dims) {
            return Err(e);
        }
        let handle: u64 = device.draw(1).unwrap();
        let mut plan = Plan::empty();
        plan_descriptor(&mut plan, DescriptorKind::Filter, handle, data_type, dims);
        let descriptor = FilterDescriptor {
            descriptor: handle,
            data_type,
            element: core::marker::PhantomData,
        };
        Ok((descriptor, plan))
    }

    /// A descriptor of this type describes a filter of the shape that
    /// the type names.
    pub proof fn lemma_shape(&self)
        ensures
            self@.kind == DescriptorKind::Filter,
            self@.dims == (Dims { n: C_OUT, c: C_IN, h: H, w: W }),
    {
    }

    /// Takes a handle that was drawn for a descriptor of this shape.
    pub(crate) fn adopt(descriptor: u64, data_type: DataType) -> (r: Self)
        ensures
            r@ == (DescriptorView {
                kind: DescriptorKind::Filter,
                descriptor,
                data_type,
                dims: Dims { n: C_OUT, c: C_IN, h: H, w: W },
            }),
    {
        FilterDescriptor { descriptor, data_type, element: core::marker::PhantomData }
    }

    /// The handle that names the descriptor.
    pub fn get_descriptor(&self) -> (r: u64)
        ensures
            r == self@.descriptor,
    {
        self.descriptor
    }

    /// The element type.
    pub fn data_type(&self) -> (r: DataType)
        ensures
            r == self@.data_type,
    {
        self.data_type
    }

    /// Gives the descriptor up. The request must succeed.
    pub fn destroy(self) -> (plan: Plan)
        ensures
            plan@ == self@.destroyed(),
    {
        let mut plan = Plan::empty();
        plan.push(
            DriverCall::DestroyFilterDescriptor { descriptor: self.descriptor },
            OnFailure::Abort,
        );
        proof {
            assert(plan@.steps =~= self@.destroyed().steps);
        }
        plan
    }
}

} // verus!
