//! Tensors: a region of device memory that holds `N * C * H * W`
//! elements, together with the descriptor of that shape.

use vstd::prelude::*;
use vstd::layout::size_of;
use crate::cudnn::descriptor::{DescriptorKind, Dims, TensorDescriptor};
use crate::cudnn::handle::CudnnHandle;
use crate::cudnn::shape::{flat4, flatten};
use crate::cudnn::shaped::{adopt, free, make, TensorView};
use crate::driver::call::{DataType, DriverCall};
use crate::driver::device::{CudaContext, CudaDevice};
use crate::driver::error::DeviceError;
use crate::driver::plan::{OnFailure, Plan, PlanView, Step};
use crate::driver::slice::CudaSlice;

verus! {

/// A tensor of `N * C * H * W` elements laid out in that order: the
/// region that holds the elements and the descriptor of its shape.
#[derive(Debug)]
pub struct Tensor4D<'c, T, const N: usize, const C: usize, const H: usize, const W: usize> {
    descriptor: TensorDescriptor<T, N, C, H, W>,
    data: CudaSlice<'c, T>,
}

impl<'c, T, const N: usize, const C: usize, const H: usize, const W: usize> View for Tensor4D<
    'c,
    T,
    N,
    C,
    H,
    W,
> {
    type V = TensorView<T>;

    closed spec fn view(&self) -> TensorView<T> {
        TensorView { descriptor: self.descriptor@, data: self.data@ }
    }
}

impl<'c, T, const N: usize, const C: usize, const H: usize, const W: usize> Tensor4D<
    'c,
    T,
    N,
    C,
    H,
    W,
> {
    #[verifier::type_invariant]
    pub open spec fn well_formed(&self) -> bool {
        self@.wf()
    }

    /// The shape of every tensor of this type.
    pub open spec fn dims() -> Dims {
        Dims { n: N, c: C, h: H, w: W }
    }

    /// Makes a tensor of a region that holds its elements, and plans the
    /// descriptor of its shape.
    ///
    /// The region is handed back where it has not one element for each
    /// position of the shape, where it lives on another device, or where
    /// no descriptor can be made.
    pub fn create(
        allocation: CudaSlice<'c, T>,
        device: &mut CudaDevice,
        data_type: DataType,
    ) -> (r: Result<(Self, Plan), (CudaSlice<'c, T>, DeviceError)>)
        ensures
            final(device)@.wf(),
            match r {
                Ok((tensor, plan)) => {
                    &&& old(device)@.adoption_refusal(allocation@, data_type, Self::dims()) is None
                    &&& final(device)@ == old(device)@.advanced(1)
                    &&& tensor@ == old(device)@.adopted_tensor(
                        DescriptorKind::Tensor,
                        allocation@,
                        data_type,
                        Self::dims(),
                    )
                    &&& plan@ == tensor@.adopted()
                },
                Err((returned, e)) => {
                    &&& old(device)@.adoption_refusal(allocation@, data_type, Self::dims())
                        == Some(e)
                    &&& final(device)@ == old(device)@
                    &&& returned == allocation
                },
            },
    {
        let dims = Dims { n: N, c: C, h: H, w: W };
        match adopt(DescriptorKind::Tensor, dims, allocation, device, data_type) {
            Ok((handle, data, plan)) => Ok(
                (Tensor4D { descriptor: TensorDescriptor::adopt(handle, data_type), data }, plan),
            ),
            Err(refused) => Err(refused),
        }
    }

    /// Reserves a region for a tensor in `context` and plans the descriptor
    /// of its shape. What the region holds is unspecified until it is written.
    ///
    /// The request is refused where `context` is not the device's own,
    /// where the size of the region does not fit the address type, where
    /// `data_type` has not the size of `T`, where a dimension does not fit
    /// the numeric library's index type, or where the device has fewer than
    /// two handles left.
    pub fn alloc_uninit(
        device: &mut CudaDevice,
        context: &'c CudaContext,
        data_type: DataType,
    ) -> (r: Result<(Self, Plan), DeviceError>)
        ensures
            final(device)@.wf(),
            match r {
                Ok((tensor, plan)) => {
                    &&& old(device)@.tensor_refusal::<T>(context@, data_type, Self::dims()) is None
                    &&& final(device)@ == old(device)@.advanced(2)
                    &&& tensor@ == old(device)@.fresh_tensor::<T>(
                        DescriptorKind::Tensor,
                        data_type,
                        Self::dims(),
                        None,
                    )
                    &&& plan@ == tensor@.reserved()
                },
                Err(e) => {
                    &&& old(device)@.tensor_refusal::<T>(context@, data_type, Self::dims())
                        == Some(e)
                    &&& final(device)@ == old(device)@
                },
            },
    {
        let dims = Dims { n: N, c: C, h: H, w: W };
        match make(DescriptorKind::Tensor, dims, device, context, data_type, None) {
            Ok((handle, data, plan)) => Ok(
                (Tensor4D { descriptor: TensorDescriptor::adopt(handle, data_type), data }, plan),
            ),
            Err(e) => Err(e),
        }
    }

    /// The handle that names the descriptor of the tensor.
    pub fn get_descriptor(&self) -> (r: u64)
        ensures
            r == self@.descriptor.descriptor,
    {
        self.descriptor.get_descriptor()
    }

    /// The handle that names the region of the tensor, for reading.
    pub fn get_data_ptr(&self) -> (r: u64)
        ensures
            r == self@.data.region,
    {
        self.data.region()
    }

    /// The handle that names the region of the tensor, for writing.
    pub fn get_data_ptr_mut(&self) -> (r: u64)
        ensures
            r == self@.data.region,
    {
        self.data.region()
    }

    /// The region that holds the elements.
    pub fn data(&self) -> (r: &CudaSlice<'c, T>)
        ensures
            r@ == self@.data,
            self@.wf(),
    {
        proof {
            use_type_invariant(self);
        }
        &self.data
    }

    /// Reads the elements of the tensor back to the host, after the
    /// device's queue has run dry.
    pub fn get_data(&self) -> (plan: Plan)
        ensures
            plan@ == self@.data.readback(),
    {
        self.data.to_host()
    }

    /// Gives the tensor up: the descriptor is destroyed and the region is
    /// freed on its queue. Both requests must succeed.
    pub fn free(self) -> (plan: Plan)
        ensures
            plan@ == self@.freed(),
    {
        proof {
            self.descriptor.lemma_shape();
        }
        let destroy = DriverCall::DestroyTensorDescriptor {
            descriptor: self.descriptor.get_descriptor(),
        };
        free(destroy, self.data)
    }

    /// The request that sets every element of the tensor to one value,
    /// through the session `handle` with the numeric library.
    pub open spec fn setting(tensor: TensorView<T>, handle: u64) -> DriverCall {
        DriverCall::SetTensor {
            handle,
            descriptor: tensor.descriptor.descriptor,
            region: tensor.data.region,
        }
    }

    /// Sets every element of the tensor to one value, through the numeric
    /// library. The value itself goes from the caller to the executor.
    pub fn set_all(&self, cudnn_handle: &CudnnHandle) -> (plan: Plan)
        ensures
            plan@ == PlanView::uniform(
                seq![Self::setting(self@, cudnn_handle.0)],
                OnFailure::Surface,
            ),
    {
        let mut plan = Plan::empty();
        let call = DriverCall::SetTensor {
            handle: cudnn_handle.0,
            descriptor: self.descriptor.get_descriptor(),
            region: self.data.region(),
        };
        plan.push(call, OnFailure::Surface);
        proof {
            assert(plan@.steps =~= PlanView::uniform(seq![call], OnFailure::Surface).steps);
        }
        plan
    }

    /// Reserves a region for a tensor in `context`, plans the descriptor of
    /// its shape, and sets every element to one value through the numeric
    /// library. Where the elements cannot be set, the descriptor is
    /// destroyed and the region given back before the error is reported.
    pub fn alloc_all_same(
        device: &mut CudaDevice,
        context: &'c CudaContext,
        cudnn_handle: &CudnnHandle,
        data_type: DataType,
    ) -> (r: Result<(Self, Plan), DeviceError>)
        ensures
            final(device)@.wf(),
            match r {
                Ok((tensor, plan)) => {
                    &&& old(device)@.tensor_refusal::<T>(context@, data_type, Self::dims()) is None
                    &&& final(device)@ == old(device)@.advanced(2)
                    &&& tensor@ == old(device)@.fresh_tensor::<T>(
                        DescriptorKind::Tensor,
                        data_type,
                        Self::dims(),
                        None,
                    )
                    &&& plan@ == (PlanView {
                        steps: tensor@.reserved().steps.push(
                            Step {
                                call: Self::setting(tensor@, cudnn_handle.0),
                                on_failure: OnFailure::Release(2),
                            },
                        ),
                        release: tensor@.reserved().release,
                    })
                },
                Err(e) => {
                    &&& old(device)@.tensor_refusal::<T>(context@, data_type, Self::dims())
                        == Some(e)
                    &&& final(device)@ == old(device)@
                },
            },
    {
        let (tensor, mut plan) = match Self::alloc_uninit(device, context, data_type) {
            Ok(made) => made,
            Err(e) => {
                return Err(e);
            },
        };
        plan.push(
            DriverCall::SetTensor {
                handle: cudnn_handle.0,
                descriptor: tensor.descriptor.get_descriptor(),
                region: tensor.data.region(),
            },
            OnFailure::Release(2),
        );
        Ok((tensor, plan))
    }

    /// The size of the tensor's elements in bytes.
    pub fn size(&self) -> (r: usize)
        ensures
            r == size_of::<T>() * N * C * H * W,
    {
        proof {
            use_type_invariant(self);
            self.descriptor.lemma_shape();
            assert(size_of::<T>() * N * C * H * W == (N * C * H * W) * size_of::<T>())
                by (nonlinear_arith);
        }
        self.data.num_bytes()
    }
}

impl<'c, T: Copy, const N: usize, const C: usize, const H: usize, const W: usize> Tensor4D<
    'c,
    T,
    N,
    C,
    H,
    W,
> {
    /// Reserves a region for a tensor in `context`, copies `value` into it in
    /// queue order, and plans the descriptor of its shape. The region keeps
    /// the elements of `value` as its mirror, in the order in which the
    /// region holds them.
    pub fn alloc_with(
        device: &mut CudaDevice,
        context: &'c CudaContext,
        data_type: DataType,
        value: [[[[T; W]; H]; C]; N],
    ) -> (r: Result<(Self, Plan), DeviceError>)
        ensures
            final(device)@.wf(),
            match r {
                Ok((tensor, plan)) => {
                    &&& old(device)@.tensor_refusal::<T>(context@, data_type, Self::dims()) is None
                    &&& final(device)@ == old(device)@.advanced(2)
                    &&& tensor@ == old(device)@.fresh_tensor::<T>(
                        DescriptorKind::Tensor,
                        data_type,
                        Self::dims(),
                        Some(flat4(value)),
                    )
                    &&& plan@ == tensor@.uploaded()
                },
                Err(e) => {
                    &&& old(device)@.tensor_refusal::<T>(context@, data_type, Self::dims())
                        == Some(e)
                    &&& final(device)@ == old(device)@
                },
            },
    {
        let dims = Dims { n: N, c: C, h: H, w: W };
        let flat: Vec<T> = flatten(&value);
        match make(DescriptorKind::Tensor, dims, device, context, data_type, Some(flat)) {
            Ok((handle, data, plan)) => Ok(
                (Tensor4D { descriptor: TensorDescriptor::adopt(handle, data_type), data }, plan),
            ),
            Err(e) => Err(e),
        }
    }
}

} // verus!
