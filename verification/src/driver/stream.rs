//! Forked queues: work that runs beside the device's own queue, tied to it
//! where the queue is made and where it is given up.

use vstd::prelude::*;
use crate::driver::call::DriverCall;
use crate::driver::device::{CudaContext, CudaDevice, DeviceView};
use crate::driver::error::DeviceError;
use crate::driver::plan::{OnFailure, Plan, PlanView, Step};

verus! {

/// A queue that runs beside the work queue of its device.
///
/// It is made by [`CudaDevice::fork_default_stream`], which lets it start
/// only after the work that the device's queue held at that moment, and it
/// is given up by [`CudaStream::join`], which lets the device's queue go on
/// only after the work that this queue holds by then. It borrows the
/// context of its device, so the device cannot be torn down while it lives.
#[derive(Debug)]
pub struct CudaStream<'c> {
    context: &'c CudaContext,
    stream: u64,
}

/// The mathematical content of a [`CudaStream`].
pub struct StreamView {
    /// The handle that names the queue.
    pub stream: u64,
    /// The index of the device that the queue belongs to.
    pub device: usize,
    /// The work queue of that device.
    pub default_stream: u64,
}

impl StreamView {
    /// What holds of every forked queue: it is not its device's work queue.
    pub open spec fn wf(self) -> bool {
        self.stream != self.default_stream
    }

    /// The requests that make the device's queue wait for this one, and
    /// then destroy this one.
    pub open spec fn join_calls(self) -> Seq<DriverCall> {
        seq![
            DriverCall::EventRecord { stream: self.stream },
            DriverCall::StreamWaitEvent { stream: self.default_stream },
            DriverCall::StreamDestroy { stream: self.stream },
        ]
    }

    /// The plan that makes the queue: it is created, the event is recorded
    /// on the device's queue, and the new queue is made to wait for it. The
    /// calling thread does not wait. Where one of the last two fails, the
    /// queue is joined and destroyed before the error is reported.
    pub open spec fn fork(self) -> PlanView {
        PlanView {
            steps: seq![
                Step {
                    call: DriverCall::StreamCreate { stream: self.stream },
                    on_failure: OnFailure::Surface,
                },
                Step {
                    call: DriverCall::EventRecord { stream: self.default_stream },
                    on_failure: OnFailure::Release(3),
                },
                Step {
                    call: DriverCall::StreamWaitEvent { stream: self.stream },
                    on_failure: OnFailure::Release(3),
                },
            ],
            release: self.join_calls(),
        }
    }

    /// The plan that makes this queue wait for the work that the device's
    /// queue holds now.
    pub open spec fn awaiting_default(self) -> PlanView {
        PlanView::uniform(
            seq![
                DriverCall::EventRecord { stream: self.default_stream },
                DriverCall::StreamWaitEvent { stream: self.stream },
            ],
            OnFailure::Surface,
        )
    }

    /// The plan that makes the device's queue wait for the work that this
    /// queue holds now.
    pub open spec fn awaited(self) -> PlanView {
        PlanView::uniform(
            seq![
                DriverCall::EventRecord { stream: self.stream },
                DriverCall::StreamWaitEvent { stream: self.default_stream },
            ],
            OnFailure::Surface,
        )
    }

    /// The plan that gives the queue up. Each request must succeed.
    pub open spec fn join(self) -> PlanView {
        PlanView::uniform(self.join_calls(), OnFailure::Abort)
    }
}

impl DeviceView {
    /// The queue that the device forks next.
    pub open spec fn forked(self) -> StreamView {
        StreamView { stream: self.next_handle, device: self.ordinal, default_stream: self.stream }
    }
}

impl<'c> View for CudaStream<'c> {
    type V = StreamView;

    closed spec fn view(&self) -> StreamView {
        StreamView {
            stream: self.stream,
            device: self.context@.ordinal,
            default_stream: self.context@.stream,
        }
    }
}

impl<'c> CudaStream<'c> {
    #[verifier::type_invariant]
    pub open spec fn well_formed(&self) -> bool {
        self@.wf()
    }

    /// The handle that names the queue.
    pub fn stream(&self) -> (r: u64)
        ensures
            r == self@.stream,
            self@.wf(),
    {
        proof {
            use_type_invariant(self);
        }
        self.stream
    }

    /// The index of the device that the queue belongs to.
    pub fn device(&self) -> (r: usize)
        ensures
            r == self@.device,
    {
        self.context.ordinal()
    }

    /// Makes this queue wait for the work that the device's queue holds
    /// now. The calling thread does not wait.
    pub fn wait_for_default(&self) -> (plan: Plan)
        ensures
            plan@ == self@.awaiting_default(),
    {
        let mut plan = Plan::empty();
        plan.push(
            DriverCall::EventRecord { stream: self.context.stream() },
            OnFailure::Surface,
        );
        plan.push(DriverCall::StreamWaitEvent { stream: self.stream }, OnFailure::Surface);
        proof {
            assert(plan@.steps =~= self@.awaiting_default().steps);
        }
        plan
    }

    /// Gives the queue up: the device's queue is made to wait for the work
    /// that this queue holds, then this queue is destroyed.
    pub fn join(self) -> (plan: Plan)
        ensures
            plan@ == self@.join(),
    {
        let mut plan = Plan::empty();
        plan.push(DriverCall::EventRecord { stream: self.stream }, OnFailure::Abort);
        plan.push(
            DriverCall::StreamWaitEvent { stream: self.context.stream() },
            OnFailure::Abort,
        );
        plan.push(DriverCall::StreamDestroy { stream: self.stream }, OnFailure::Abort);
        proof {
            assert(plan@.steps =~= self@.join().steps);
        }
        plan
    }
}

impl CudaDevice {
    /// Forks a queue in `context` that runs beside the device's own.
    ///
    /// The new queue starts only after the work that the device's queue
    /// holds now; the calling thread does not wait for it. The request is
    /// refused where `context` is not the device's own, or where the device
    /// has no handle left.
    pub fn fork_default_stream<'c>(&mut self, context: &'c CudaContext) -> (r: Result<
        (CudaStream<'c>, Plan),
        DeviceError,
    >)
        ensures
            final(self)@.wf(),
            match r {
                Ok((stream, plan)) => {
                    &&& context@ == old(self)@.context()
                    &&& old(self)@.next_handle < u64::MAX
                    &&& final(self)@ == old(self)@.advanced(1)
                    &&& stream@ == old(self)@.forked()
                    &&& stream@.wf()
                    &&& plan@ == stream@.fork()
                },
                Err(e) => {
                    &&& final(self)@ == old(self)@
                    &&& e == if context@ != old(self)@.context() {
                        DeviceError::ForeignHandle
                    } else {
                        DeviceError::HandlesExhausted
                    }
                    &&& context@ != old(self)@.context() || old(self)@.next_handle == u64::MAX
                },
            },
    {
        proof {
            use_type_invariant(&*self);
        }
        if !self.governs(context) {
            return Err(DeviceError::ForeignHandle);
        }
        let default_stream: u64 = context.stream();
        let handle: u64 = match self.draw(1) {
            Some(handle) => handle,
            None => {
                return Err(DeviceError::HandlesExhausted);
            },
        };
        let stream = CudaStream { context, stream: handle };
        let mut plan = Plan::empty();
        plan.push(DriverCall::StreamCreate { stream: handle }, OnFailure::Surface);
        plan.push(DriverCall::EventRecord { stream: default_stream }, OnFailure::Release(3));
        plan.push(DriverCall::StreamWaitEvent { stream: handle }, OnFailure::Release(3));
        plan.release.push(DriverCall::EventRecord { stream: handle });
        plan.release.push(DriverCall::StreamWaitEvent { stream: default_stream });
        plan.release.push(DriverCall::StreamDestroy { stream: handle });
        proof {
            assert(plan@.steps =~= stream@.fork().steps);
            assert(plan@.release =~= stream@.fork().release);
        }
        Ok((stream, plan))
    }

    /// Makes the device's queue wait for the work that `stream` holds now.
    /// The calling thread does not wait. A queue of another device is refused.
    pub fn wait_for(&self, stream: &CudaStream<'_>) -> (r: Result<Plan, DeviceError>)
        ensures
            match r {
                Ok(plan) => self@.forked_here(stream@) && plan@ == stream@.awaited(),
                Err(e) => !self@.forked_here(stream@) && e == DeviceError::ForeignHandle,
            },
    {
        if !self.governs(stream.context) || !self.names(stream.stream) {
            return Err(DeviceError::ForeignHandle);
        }
        let mut plan = Plan::empty();
        plan.push(DriverCall::EventRecord { stream: stream.stream }, OnFailure::Surface);
        plan.push(
            DriverCall::StreamWaitEvent { stream: stream.context.stream() },
            OnFailure::Surface,
        );
        proof {
            assert(plan@.steps =~= stream@.awaited().steps);
        }
        Ok(plan)
    }
}

impl DeviceView {
    /// Whether a queue was forked from this device.
    pub open spec fn forked_here(self, stream: StreamView) -> bool {
        &&& stream.device == self.ordinal
        &&& stream.default_stream == self.stream
        &&& self.names(stream.stream)
    }
}

} // verus!
