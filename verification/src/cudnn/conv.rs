//! The gradients of a two-dimensional convolution: what is asked of the
//! numeric library to select a strategy, to size its scratch memory and to
//! run it.

use vstd::prelude::*;
use crate::cudnn::filter::Filter;
use crate::cudnn::handle::{ConvolutionDescriptor, CudnnHandle};
use crate::cudnn::tensor::Tensor4D;
use crate::driver::call::{DriverCall, Scale};

verus! {

/// A strategy as the numeric library reports it: its number and the scratch
/// memory it said it would need.
#[derive(Clone, Copy, Debug, PartialEq, Eq, Structural)]
pub struct AlgorithmPerf {
    pub algo: u32,
    pub memory: usize,
}

/// Takes the answer to a request for the one best strategy.
///
/// The numeric library says how many strategies it wrote. Any count but one
/// means that it did not do what was asked, and there is nothing to go on
/// with: the caller stops the program instead of calling this.
pub fn single_algorithm(returned: i32, best: AlgorithmPerf) -> (r: AlgorithmPerf)
    requires
        returned == 1,
    ensures
        r == best,
{
    best
}

/// All that is needed to compute the gradient `dx` of the input of a
/// convolution from the filter and the gradient `dy` of its output.
///
/// The input has `N * C_IN * H * W` elements, the filter
/// `C_OUT * C_IN * F_H * F_W` and the output `N * C_OUT * O_H * O_W`.
#[derive(Debug)]
pub struct Convolution2DBackward<
    'c,
    T,
    const N: usize,
    const C_IN: usize,
    const C_OUT: usize,
    const H: usize,
    const W: usize,
    const F_H: usize,
    const F_W: usize,
    const O_H: usize,
    const O_W: usize,
> {
    descriptor: ConvolutionDescriptor,
    dy: Tensor4D<'c, T, N, C_OUT, O_H, O_W>,
    filter: Filter<'c, T, C_OUT, C_IN, F_H, F_W>,
    dx: Tensor4D<'c, T, N, C_IN, H, W>,
    cudnn_handle: CudnnHandle,
    alpha: Scale,
    beta: Scale,
}

/// The handles that an operation on a convolution hands to the numeric
/// library, and the two coefficients by which it scales: the result is
/// `alpha` times what was computed plus `beta` times what the output held.
pub struct ConvolutionView {
    /// The session with the numeric library.
    pub handle: u64,
    /// The descriptor of the convolution.
    pub convolution: u64,
    /// The descriptor and the region of the first operand.
    pub first: (u64, u64),
    /// The descriptor and the region of the second operand.
    pub second: (u64, u64),
    /// The descriptor and the region of the result.
    pub output: (u64, u64),
    /// The coefficient of what is computed.
    pub alpha: Scale,
    /// The coefficient of what the output held before.
    pub beta: Scale,
}

impl<
    'c,
    T,
    const N: usize,
    const C_IN: usize,
    const C_OUT: usize,
    const H: usize,
    const W: usize,
    const F_H: usize,
    const F_W: usize,
    const O_H: usize,
    const O_W: usize,
> Convolution2DBackward<'c, T, N, C_IN, C_OUT, H, W, F_H, F_W, O_H, O_W> {
    /// The operation seen as handles: the filter first, `dy` second, `dx`
    /// as the output.
    pub closed spec fn view(&self) -> ConvolutionView {
        ConvolutionView {
            handle: self.cudnn_handle.0,
            convolution: self.descriptor.0,
            first: (self.filter@.descriptor.descriptor, self.filter@.data.region),
            second: (self.dy@.descriptor.descriptor, self.dy@.data.region),
            output: (self.dx@.descriptor.descriptor, self.dx@.data.region),
            alpha: self.alpha,
            beta: self.beta,
        }
    }

    /// Puts the parts of the operation together. The result replaces what
    /// `dx` held: `alpha` is one and `beta` is zero.
    pub fn create(
        cudnn_handle: CudnnHandle,
        descriptor: ConvolutionDescriptor,
        dy: Tensor4D<'c, T, N, C_OUT, O_H, O_W>,
        filter: Filter<'c, T, C_OUT, C_IN, F_H, F_W>,
        dx: Tensor4D<'c, T, N, C_IN, H, W>,
    ) -> (r: Self)
        ensures
            r.view() == (ConvolutionView {
                handle: cudnn_handle.0,
                convolution: descriptor.0,
                first: (filter@.descriptor.descriptor, filter@.data.region),
                second: (dy@.descriptor.descriptor, dy@.data.region),
                output: (dx@.descriptor.descriptor, dx@.data.region),
                alpha: Scale::One,
                beta: Scale::Zero,
            }),
    {
        Convolution2DBackward {
            cudnn_handle,
            descriptor,
            dy,
            filter,
            dx,
            alpha: Scale::One,
            beta: Scale::Zero,
        }
    }

    /// Sets the two coefficients: with `beta` zero the result replaces what
    /// `dx` held, with `beta` one it is added to it.
    pub fn with_scaling(self, alpha: Scale, beta: Scale) -> (r: Self)
        ensures
            r.view() == (ConvolutionView { alpha, beta, ..self.view() }),
    {
        let mut scaled = self;
        scaled.alpha = alpha;
        scaled.beta = beta;
        scaled
    }

    /// The request for the one best strategy for the operation as it stands.
    pub fn get_algorithm(&self) -> (call: DriverCall)
        ensures
            call == (DriverCall::FindBackwardDataAlgorithm {
                handle: self.view().handle,
                filter: self.view().first.0,
                dy: self.view().second.0,
                convolution: self.view().convolution,
                dx: self.view().output.0,
                requested: 1,
            }),
    {
        DriverCall::FindBackwardDataAlgorithm {
            handle: self.cudnn_handle.0,
            filter: self.filter.get_descriptor(),
            dy: self.dy.get_descriptor(),
            convolution: self.descriptor.0,
            dx: self.dx.get_descriptor(),
            requested: 1,
        }
    }

    /// The request for the size of the scratch memory that `algorithm` needs.
    pub fn get_workspace_size(&self, algorithm: &AlgorithmPerf) -> (call: DriverCall)
        ensures
            call == (DriverCall::BackwardDataWorkspaceSize {
                handle: self.view().handle,
                filter: self.view().first.0,
                dy: self.view().second.0,
                convolution: self.view().convolution,
                dx: self.view().output.0,
                algorithm: algorithm.algo,
            }),
    {
        DriverCall::BackwardDataWorkspaceSize {
            handle: self.cudnn_handle.0,
            filter: self.filter.get_descriptor(),
            dy: self.dy.get_descriptor(),
            convolution: self.descriptor.0,
            dx: self.dx.get_descriptor(),
            algorithm: algorithm.algo,
        }
    }

    /// The request that runs the operation by `algorithm`, with the scratch
    /// region named by `workspace_allocation`, of `workspace_size` bytes.
    pub fn execute(
        &self,
        algorithm: &AlgorithmPerf,
        workspace_allocation: u64,
        workspace_size: usize,
    ) -> (call: DriverCall)
        ensures
            call == (DriverCall::ConvolutionBackwardData {
                handle: self.view().handle,
                alpha: self.view().alpha,
                filter: self.view().first.0,
                filter_data: self.view().first.1,
                dy: self.view().second.0,
                dy_data: self.view().second.1,
                convolution: self.view().convolution,
                algorithm: algorithm.algo,
                workspace: workspace_allocation,
                workspace_size,
                beta: self.view().beta,
                dx: self.view().output.0,
                dx_data: self.view().output.1,
            }),
    {
        DriverCall::ConvolutionBackwardData {
            handle: self.cudnn_handle.0,
            alpha: self.alpha,
            filter: self.filter.get_descriptor(),
            filter_data: self.filter.get_data_ptr(),
            dy: self.dy.get_descriptor(),
            dy_data: self.dy.get_data_ptr(),
            convolution: self.descriptor.0,
            algorithm: algorithm.algo,
            workspace: workspace_allocation,
            workspace_size,
            beta: self.beta,
            dx: self.dx.get_descriptor(),
            dx_data: self.dx.get_data_ptr_mut(),
        }
    }

    /// Takes the operation apart again: `dy`, the filter and `dx`.
    pub fn into_parts(self) -> (r: (
        Tensor4D<'c, T, N, C_OUT, O_H, O_W>,
        Filter<'c, T, C_OUT, C_IN, F_H, F_W>,
        Tensor4D<'c, T, N, C_IN, H, W>,
    ))
        ensures
            self.view().second == (r.0@.descriptor.descriptor, r.0@.data.region),
            self.view().first == (r.1@.descriptor.descriptor, r.1@.data.region),
            self.view().output == (r.2@.descriptor.descriptor, r.2@.data.region),
    {
        (self.dy, self.filter, self.dx)
    }
}

/// All that is needed to compute the gradient `dw` of the filter of a
/// convolution from its input `x`, its output `y` and the gradient `dy` of
/// its output.
///
/// The input has `N * C_IN * H * W` elements, the filter
/// `C_OUT * C_IN * F_H * F_W` and the output `N * C_OUT * O_H * O_W`.
#[derive(Debug)]
pub struct Convolution2DBackwardFilter<
    'c,
    T,
    const N: usize,
    const C_IN: usize,
    const C_OUT: usize,
    const H: usize,
    const W: usize,
    const F_H: usize,
    const F_W: usize,
    const O_H: usize,
    const O_W: usize,
> {
    descriptor: ConvolutionDescriptor,
    x: Tensor4D<'c, T, N, C_IN, H, W>,
    y: Tensor4D<'c, T, N, C_OUT, O_H, O_W>,
    dy: Tensor4D<'c, T, N, C_OUT, O_H, O_W>,
    dw: Filter<'c, T, C_OUT, C_IN, F_H, F_W>,
    filter: Filter<'c, T, C_OUT, C_IN, F_H, F_W>,
    cudnn_handle: CudnnHandle,
    alpha: Scale,
    beta: Scale,
}

/// The handles that the computation of a filter gradient hands to the
/// numeric library, and its two coefficients.
pub struct FilterGradientView {
    /// The session with the numeric library.
    pub handle: u64,
    /// The descriptor of the convolution.
    pub convolution: u64,
    /// The descriptor and the region of the input.
    pub x: (u64, u64),
    /// The descriptor and the region of the output.
    pub y: (u64, u64),
    /// The descriptor and the region of the gradient of the output.
    pub dy: (u64, u64),
    /// The descriptor and the region of the filter.
    pub filter: (u64, u64),
    /// The descriptor and the region of the gradient of the filter.
    pub dw: (u64, u64),
    /// The coefficient of what is computed.
    pub alpha: Scale,
    /// The coefficient of what the output held before.
    pub beta: Scale,
}

impl<
    'c,
    T,
    const N: usize,
    const C_IN: usize,
    const C_OUT: usize,
    const H: usize,
    const W: usize,
    const F_H: usize,
    const F_W: usize,
    const O_H: usize,
    const O_W: usize,
> Convolution2DBackwardFilter<'c, T, N, C_IN, C_OUT, H, W, F_H, F_W, O_H, O_W> {
    /// The operation seen as handles.
    pub closed spec fn view(&self) -> FilterGradientView {
        FilterGradientView {
            handle: self.cudnn_handle.0,
            convolution: self.descriptor.0,
            x: (self.x@.descriptor.descriptor, self.x@.data.region),
            y: (self.y@.descriptor.descriptor, self.y@.data.region),
            dy: (self.dy@.descriptor.descriptor, self.dy@.data.region),
            filter: (self.filter@.descriptor.descriptor, self.filter@.data.region),
            dw: (self.dw@.descriptor.descriptor, self.dw@.data.region),
            alpha: self.alpha,
            beta: self.beta,
        }
    }

    /// Puts the parts of the operation together. The result replaces what
    /// `dw` held: `alpha` is one and `beta` is zero.
    pub fn create(
        cudnn_handle: CudnnHandle,
        descriptor: ConvolutionDescriptor,
        filter: Filter<'c, T, C_OUT, C_IN, F_H, F_W>,
        x: Tensor4D<'c, T, N, C_IN, H, W>,
        y: Tensor4D<'c, T, N, C_OUT, O_H, O_W>,
        dy: Tensor4D<'c, T, N, C_OUT, O_H, O_W>,
        dw: Filter<'c, T, C_OUT, C_IN, F_H, F_W>,
    ) -> (r: Self)
        ensures
            r.view() == (FilterGradientView {
                handle: cudnn_handle.0,
                convolution: descriptor.0,
                x: (x@.descriptor.descriptor, x@.data.region),
                y: (y@.descriptor.descriptor, y@.data.region),
                dy: (dy@.descriptor.descriptor, dy@.data.region),
                filter: (filter@.descriptor.descriptor, filter@.data.region),
                dw: (dw@.descriptor.descriptor, dw@.data.region),
                alpha: Scale::One,
                beta: Scale::Zero,
            }),
    {
        Convolution2DBackwardFilter {
            cudnn_handle,
            descriptor,
            dy,
            filter,
            dw,
            x,
            y,
            alpha: Scale::One,
            beta: Scale::Zero,
        }
    }

    /// Sets the two coefficients: with `beta` zero the result replaces what
    /// `dw` held, with `beta` one it is added to it.
    pub fn with_scaling(self, alpha: Scale, beta: Scale) -> (r: Self)
        ensures
            r.view() == (FilterGradientView { alpha, beta, ..self.view() }),
    {
        let mut scaled = self;
        scaled.alpha = alpha;
        scaled.beta = beta;
        scaled
    }

    /// The request for the one best strategy for the operation as it stands.
    pub fn get_algorithm(&self) -> (call: DriverCall)
        ensures
            call == (DriverCall::FindBackwardFilterAlgorithm {
                handle: self.view().handle,
                x: self.view().x.0,
                dy: self.view().dy.0,
                convolution: self.view().convolution,
                dw: self.view().filter.0,
                requested: 1,
            }),
    {
        DriverCall::FindBackwardFilterAlgorithm {
            handle: self.cudnn_handle.0,
            x: self.x.get_descriptor(),
            dy: self.dy.get_descriptor(),
            convolution: self.descriptor.0,
            dw: self.filter.get_descriptor(),
            requested: 1,
        }
    }

    /// The request for the size of the scratch memory that `algorithm` needs.
    pub fn get_workspace_size(&self, algorithm: &AlgorithmPerf) -> (call: DriverCall)
        ensures
            call == (DriverCall::BackwardFilterWorkspaceSize {
                handle: self.view().handle,
                x: self.view().x.0,
                dy: self.view().dy.0,
                convolution: self.view().convolution,
                dw: self.view().filter.0,
                algorithm: algorithm.algo,
            }),
    {
        DriverCall::BackwardFilterWorkspaceSize {
            handle: self.cudnn_handle.0,
            x: self.x.get_descriptor(),
            dy: self.dy.get_descriptor(),
            convolution: self.descriptor.0,
            dw: self.filter.get_descriptor(),
            algorithm: algorithm.algo,
        }
    }

    /// The request that runs the operation by `algorithm`, with the scratch
    /// region named by `workspace_allocation`, of `workspace_size` bytes. It
    /// reads `x` and `y` and writes `dw`.
    pub fn execute(
        &self,
        algorithm: &AlgorithmPerf,
        workspace_allocation: u64,
        workspace_size: usize,
    ) -> (call: DriverCall)
        ensures
            call == (DriverCall::ConvolutionBackwardFilter {
                handle: self.view().handle,
                alpha: self.view().alpha,
                x: self.view().x.0,
                x_data: self.view().x.1,
                dy: self.view().y.0,
                dy_data: self.view().y.1,
                convolution: self.view().convolution,
                algorithm: algorithm.algo,
                workspace: workspace_allocation,
                workspace_size,
                beta: self.view().beta,
                dw: self.view().dw.0,
                dw_data: self.view().dw.1,
            }),
    {
        DriverCall::ConvolutionBackwardFilter {
            handle: self.cudnn_handle.0,
            alpha: self.alpha,
            x: self.x.get_descriptor(),
            x_data: self.x.get_data_ptr(),
            dy: self.y.get_descriptor(),
            dy_data: self.y.get_data_ptr(),
            convolution: self.descriptor.0,
            algorithm: algorithm.algo,
            workspace: workspace_allocation,
            workspace_size,
            beta: self.beta,
            dw: self.dw.get_descriptor(),
            dw_data: self.dw.get_data_ptr_mut(),
        }
    }

    /// Takes the operation apart again: the filter, `x`, `y`, `dy` and `dw`.
    pub fn into_parts(self) -> (r: (
        Filter<'c, T, C_OUT, C_IN, F_H, F_W>,
        Tensor4D<'c, T, N, C_IN, H, W>,
        Tensor4D<'c, T, N, C_OUT, O_H, O_W>,
        Tensor4D<'c, T, N, C_OUT, O_H, O_W>,
        Filter<'c, T, C_OUT, C_IN, F_H, F_W>,
    ))
        ensures
            self.view().filter == (r.0@.descriptor.descriptor, r.0@.data.region),
            self.view().x == (r.1@.descriptor.descriptor, r.1@.data.region),
            self.view().y == (r.2@.descriptor.descriptor, r.2@.data.region),
            self.view().dy == (r.3@.descriptor.descriptor, r.3@.data.region),
            self.view().dw == (r.4@.descriptor.descriptor, r.4@.data.region),
    {
        (self.filter, self.x, self.y, self.dy, self.dw)
    }
}

} // verus!
