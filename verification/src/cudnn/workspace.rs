//! Operations that pick a strategy at run time and need scratch memory sized
//! to the strategy they picked.

use vstd::prelude::*;
use crate::driver::call::DriverCall;
use crate::driver::device::{ContextView, CudaContext, CudaDevice, DeviceView};
use crate::driver::error::DeviceError;
use crate::driver::plan::{OnFailure, Plan, PlanView, Step};

verus! {

/// An operation that runs by one of several strategies and needs scratch
/// memory for it.
///
/// The three methods are answered by whoever owns the operation, from the
/// numeric library. What they answer is not known here; the three
/// predicates name the answers that each method may give, so that what is
/// built on an answer can say which answer it was built on.
pub trait RequiresWorkspace {
    /// A strategy, as the numeric library reports it.
    type Algorithm;

    /// The error of the numeric library.
    type Error;

    /// Whether `outcome` is an answer that `get_algorithm` may give. Unless
    /// an operation says more, every answer is.
    open spec fn may_select(&self, outcome: Result<Self::Algorithm, Self::Error>) -> bool {
        true
    }

    /// Whether `outcome` is an answer that `get_workspace_size` may give
    /// for `algorithm`. Unless an operation says more, every answer is.
    open spec fn may_size(
        &self,
        algorithm: &Self::Algorithm,
        outcome: Result<usize, Self::Error>,
    ) -> bool {
        true
    }

    /// Whether running the operation with this strategy and this scratch
    /// region may leave it as `after` and answer `outcome`. Unless an
    /// operation says more, it may.
    open spec fn may_run(
        &self,
        algorithm: &Self::Algorithm,
        workspace_allocation: u64,
        workspace_size: usize,
        after: &Self,
        outcome: Result<(), Self::Error>,
    ) -> bool {
        true
    }

    /// The one strategy that is best for the operation as it stands.
    fn get_algorithm(&self) -> (r: Result<Self::Algorithm, Self::Error>)
        ensures
            self.may_select(r),
    ;

    /// The number of bytes of scratch memory that `algorithm` needs. It may be zero.
    fn get_workspace_size(&self, algorithm: &Self::Algorithm) -> (r: Result<usize, Self::Error>)
        ensures
            self.may_size(algorithm, r),
    ;

    /// Runs the operation by `algorithm`, with the scratch region named by
    /// `workspace_allocation`, which has `workspace_size` bytes.
    fn execute(
        &mut self,
        algorithm: &Self::Algorithm,
        workspace_allocation: u64,
        workspace_size: usize,
    ) -> (r: Result<(), Self::Error>)
        ensures
            old(self).may_run(algorithm, workspace_allocation, workspace_size, final(self), r),
    ;
}

/// Why an operation could not be given its scratch memory.
#[derive(Debug)]
pub enum WorkspaceError<E> {
    /// The operation could not name its strategy or the size it needs.
    Operation(E),
    /// The device refused the scratch region.
    Device(DeviceError),
}

/// An operation together with the scratch region that its strategy needs.
/// The scratch region lives in the context of a device, which the binding
/// borrows.
#[derive(Debug)]
pub struct WithWorkspace<'c, T: RequiresWorkspace> {
    context: &'c CudaContext,
    data: T,
    algorithm: T::Algorithm,
    workspace_allocation: u64,
    workspace_size: usize,
}

/// The mathematical content of a [`WithWorkspace`].
pub struct WorkspaceView<T: RequiresWorkspace> {
    /// The operation.
    pub data: T,
    /// The strategy that was selected for it.
    pub algorithm: T::Algorithm,
    /// The handle of the scratch region.
    pub workspace_allocation: u64,
    /// The size of the scratch region in bytes.
    pub workspace_size: usize,
    /// The queue on which the scratch region is allocated and freed.
    pub stream: u64,
    /// The index of the device that the scratch region lives on.
    pub device: usize,
}

impl<T: RequiresWorkspace> WorkspaceView<T> {
    /// The plan that reserves the scratch region: exactly as many bytes as
    /// the strategy was said to need, on the device's queue.
    pub open spec fn allocation(self) -> PlanView {
        PlanView {
            steps: seq![
                Step {
                    call: DriverCall::MemAllocAsync {
                        region: self.workspace_allocation,
                        bytes: self.workspace_size,
                        stream: self.stream,
                    },
                    on_failure: OnFailure::Surface,
                },
            ],
            release: seq![
                DriverCall::MemFreeAsync { region: self.workspace_allocation, stream: self.stream },
            ],
        }
    }

    /// The plan that frees the scratch region, on the queue that it was
    /// allocated on. The request must succeed.
    pub open spec fn freeing(self) -> PlanView {
        PlanView {
            steps: seq![
                Step {
                    call: DriverCall::MemFreeAsync {
                        region: self.workspace_allocation,
                        stream: self.stream,
                    },
                    on_failure: OnFailure::Abort,
                },
            ],
            release: Seq::empty(),
        }
    }
}

impl DeviceView {
    /// Why the device cannot make a scratch region in `context`, or `None`
    /// where it can.
    pub open spec fn scratch_refusal(self, context: ContextView) -> Option<DeviceError> {
        if context != self.context() {
            Some(DeviceError::ForeignHandle)
        } else if self.next_handle == u64::MAX {
            Some(DeviceError::HandlesExhausted)
        } else {
            None
        }
    }

    /// The binding that the device makes next for `data`, once `algorithm`
    /// is selected and said to need `workspace_size` bytes.
    pub open spec fn bound<T: RequiresWorkspace>(
        self,
        data: T,
        algorithm: T::Algorithm,
        workspace_size: usize,
    ) -> WorkspaceView<T> {
        WorkspaceView {
            data,
            algorithm,
            workspace_allocation: self.next_handle,
            workspace_size,
            stream: self.stream,
            device: self.ordinal,
        }
    }
}

impl<'c, T: RequiresWorkspace> View for WithWorkspace<'c, T> {
    type V = WorkspaceView<T>;

    closed spec fn view(&self) -> WorkspaceView<T> {
        WorkspaceView {
            data: self.data,
            algorithm: self.algorithm,
            workspace_allocation: self.workspace_allocation,
            workspace_size: self.workspace_size,
            stream: self.context@.stream,
            device: self.context@.ordinal,
        }
    }
}

impl<'c, T: RequiresWorkspace> WithWorkspace<'c, T> {
    /// Gives `data` a scratch region of `workspace_size` bytes in `context`
    /// for `algorithm`: the size that the operation named for that strategy.
    ///
    /// The request is refused, and the operation handed back, where
    /// `context` is not the device's own or where the device has no handle left.
    pub fn bind(
        data: T,
        algorithm: T::Algorithm,
        workspace_size: usize,
        device: &mut CudaDevice,
        context: &'c CudaContext,
    ) -> (r: Result<(WithWorkspace<'c, T>, Plan), (T, DeviceError)>)
        ensures
            final(device)@.wf(),
            match r {
                Ok((binding, plan)) => {
                    &&& old(device)@.scratch_refusal(context@) is None
                    &&& final(device)@ == old(device)@.advanced(1)
                    &&& binding@ == old(device)@.bound(data, algorithm, workspace_size)
                    &&& plan@ == binding@.allocation()
                },
                Err((returned, e)) => {
                    &&& old(device)@.scratch_refusal(context@) == Some(e)
                    &&& final(device)@ == old(device)@
                    &&& returned == data
                },
            },
    {
        proof {
            use_type_invariant(&*device);
        }
        if !device.governs(context) {
            return Err((data, DeviceError::ForeignHandle));
        }
        let stream: u64 = context.stream();
        let region: u64 = match device.draw(1) {
            Some(region) => region,
            None => {
                return Err((data, DeviceError::HandlesExhausted));
            },
        };
        let binding = WithWorkspace {
            context,
            data,
            algorithm,
            workspace_allocation: region,
            workspace_size,
        };
        let mut plan = Plan::empty();
        plan.push(
            DriverCall::MemAllocAsync { region, bytes: workspace_size, stream },
            OnFailure::Surface,
        );
        plan.release.push(DriverCall::MemFreeAsync { region, stream });
        proof {
            assert(plan@.steps =~= binding@.allocation().steps);
            assert(plan@.release =~= binding@.allocation().release);
        }
        Ok((binding, plan))
    }

    /// Asks `data` for its strategy, then for the scratch size of that
    /// strategy, and then plans a scratch region of exactly that size on the
    /// device's queue, in this order.
    ///
    /// A context that is not the device's own is refused before anything is
    /// asked. Where the operation cannot answer, its error comes back and
    /// nothing is asked of the device.
    pub fn create(data: T, device: &mut CudaDevice, context: &'c CudaContext) -> (r: Result<
        (WithWorkspace<'c, T>, Plan),
        WorkspaceError<T::Error>,
    >)
        ensures
            final(device)@.wf(),
            match r {
                Ok((binding, plan)) => {
                    &&& data.may_select(Ok(binding@.algorithm))
                    &&& data.may_size(&binding@.algorithm, Ok(binding@.workspace_size))
                    &&& old(device)@.scratch_refusal(context@) is None
                    &&& final(device)@ == old(device)@.advanced(1)
                    &&& binding@ == old(device)@.bound(
                        data,
                        binding@.algorithm,
                        binding@.workspace_size,
                    )
                    &&& plan@ == binding@.allocation()
                },
                Err(WorkspaceError::Operation(e)) => {
                    &&& context@ == old(device)@.context()
                    &&& final(device)@ == old(device)@
                    &&& {
                        ||| data.may_select(Err(e))
                        ||| exists|algorithm: T::Algorithm|
                            data.may_select(Ok(algorithm)) && #[trigger] data.may_size(
                                &algorithm,
                                Err(e),
                            )
                    }
                },
                Err(WorkspaceError::Device(e)) => {
                    &&& final(device)@ == old(device)@
                    &&& old(device)@.scratch_refusal(context@) == Some(e)
                    &&& e == DeviceError::HandlesExhausted ==> exists|
                        algorithm: T::Algorithm,
                        size: usize,
                    |
                        data.may_select(Ok(algorithm)) && #[trigger] data.may_size(
                            &algorithm,
                            Ok(size),
                        )
                },
            },
    {
        proof {
            use_type_invariant(&*device);
        }
        if !device.governs(context) {
            return Err(WorkspaceError::Device(DeviceError::ForeignHandle));
        }
        let algorithm = match data.get_algorithm() {
            Ok(algorithm) => algorithm,
            Err(e) => {
                return Err(WorkspaceError::Operation(e));
            },
        };
        let workspace_size: usize = match data.get_workspace_size(&algorithm) {
            Ok(size) => size,
            Err(e) => {
                return Err(WorkspaceError::Operation(e));
            },
        };
        match WithWorkspace::bind(data, algorithm, workspace_size, device, context) {
            Ok(bound) => Ok(bound),
            Err((_, e)) => Err(WorkspaceError::Device(e)),
        }
    }

    /// The size of the scratch region in bytes.
    pub fn workspace_size(&self) -> (r: usize)
        ensures
            r == self@.workspace_size,
    {
        self.workspace_size
    }

    /// The handle of the scratch region.
    pub fn workspace_allocation(&self) -> (r: u64)
        ensures
            r == self@.workspace_allocation,
    {
        self.workspace_allocation
    }

    /// The strategy that was selected.
    pub fn algorithm(&self) -> (r: &T::Algorithm)
        ensures
            *r == self@.algorithm,
    {
        &self.algorithm
    }

    /// The operation.
    pub fn data(&self) -> (r: &T)
        ensures
            *r == self@.data,
    {
        &self.data
    }

    /// Runs the operation by the selected strategy, with the scratch region
    /// that was bound to it and the size of that region.
    pub fn execute(&mut self) -> (r: Result<(), T::Error>)
        ensures
            old(self)@.data.may_run(
                &old(self)@.algorithm,
                old(self)@.workspace_allocation,
                old(self)@.workspace_size,
                &final(self)@.data,
                r,
            ),
            final(self)@ == (WorkspaceView { data: final(self)@.data, ..old(self)@ }),
    {
        self.data.execute(&self.algorithm, self.workspace_allocation, self.workspace_size)
    }

    /// Ends the binding: the scratch region is freed on the queue that it
    /// was allocated on, and the operation is handed back.
    pub fn release(self) -> (r: (T, Plan))
        ensures
            r.0 == self@.data,
            r.1@ == self@.freeing(),
    {
        let mut plan = Plan::empty();
        plan.push(
            DriverCall::MemFreeAsync {
                region: self.workspace_allocation,
                stream: self.context.stream(),
            },
            OnFailure::Abort,
        );
        proof {
            assert(plan@.steps =~= self@.freeing().steps);
        }
        (self.data, plan)
    }
}

} // verus!
