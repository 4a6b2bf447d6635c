//! The order in which the accelerator carries requests out.
//!
//! A queue runs its requests one after the other, in the order in which
//! they were made. Two queues are tied together only where one records the
//! device's event and the other is then made to wait for it.

use vstd::prelude::*;
use crate::driver::call::DriverCall;
use crate::driver::device::DeviceView;
use crate::driver::slice::SliceView;
use crate::driver::stream::StreamView;

verus! {

impl DriverCall {
    /// The queue that the request is placed on, if it is placed on one.
    pub open spec fn queue(self) -> Option<u64> {
        match self {
            DriverCall::EventRecord { stream } => Some(stream),
            DriverCall::StreamWaitEvent { stream } => Some(stream),
            DriverCall::MemAllocAsync { stream, .. } => Some(stream),
            DriverCall::MemFreeAsync { stream, .. } => Some(stream),
            DriverCall::MemcpyHtoDAsync { stream, .. } => Some(stream),
            DriverCall::MemcpyDtoDAsync { stream, .. } => Some(stream),
            DriverCall::FillAsync { stream, .. } => Some(stream),
            _ => None,
        }
    }

    /// Whether the request makes the calling thread wait for the device.
    pub open spec fn blocks(self) -> bool {
        self is StreamSynchronize || self is MemcpyDtoH
    }
}

/// Whether the requests at `record` and `wait` tie the queue of the request
/// at `earlier` to the queue of the request at `later`: the event is
/// recorded on the first queue after `earlier`, the second queue is made to
/// wait for it before `later`, and the event is not recorded anew in between.
pub open spec fn tied(
    trace: Seq<DriverCall>,
    earlier: int,
    record: int,
    wait: int,
    later: int,
) -> bool {
    &&& earlier < record < wait < later
    &&& trace[earlier].queue() matches Some(first)
    &&& trace[later].queue() matches Some(second)
    &&& trace[record] == DriverCall::EventRecord { stream: first }
    &&& trace[wait] == DriverCall::StreamWaitEvent { stream: second }
    &&& forall|k: int| record < k < wait ==> !(#[trigger] trace[k] is EventRecord)
}

/// Whether the calling thread has waited, at `drain`, for the queue of the
/// request at `earlier` to run dry before it made the request at `later`.
pub open spec fn drained(trace: Seq<DriverCall>, earlier: int, drain: int, later: int) -> bool {
    &&& earlier < drain < later
    &&& trace[earlier].queue() matches Some(queue)
    &&& trace[drain] == DriverCall::StreamSynchronize { stream: queue }
}

/// Whether, among the requests of `trace` in the order in which they were
/// made, the one at `earlier` is sure to be complete before the one at
/// `later` starts: both are on one queue, or an event ties their queues, or
/// the calling thread has waited for the queue of the first in between.
pub open spec fn completes_before(trace: Seq<DriverCall>, earlier: int, later: int) -> bool {
    &&& 0 <= earlier < later < trace.len()
    &&& trace[earlier].queue() is Some
    &&& {
        ||| trace[earlier].queue() == trace[later].queue()
        ||| exists|record: int, wait: int| tied(trace, earlier, record, wait, later)
        ||| exists|drain: int| drained(trace, earlier, drain, later)
    }
}

/// Whatever was placed on the device's queue before a fork is complete
/// before anything that is placed on the forked queue afterwards starts.
///
/// `before` and `after` are the requests made before and after the fork;
/// position `earlier` of `before` is on the device's queue and position
/// `later` of `after` is on the forked one.
pub proof fn lemma_fork_waits_for_default(
    device: DeviceView,
    before: Seq<DriverCall>,
    after: Seq<DriverCall>,
    earlier: int,
    later: int,
)
    requires
        device.wf(),
        0 <= earlier < before.len(),
        before[earlier].queue() == Some(device.stream),
        0 <= later < after.len(),
        after[later].queue() == Some(device.forked().stream),
    ensures
        completes_before(
            before + device.forked().fork().calls() + after,
            earlier,
            before.len() + device.forked().fork().calls().len() + later,
        ),
{
    let calls = device.forked().fork().calls();
    let trace = before + calls + after;
    let record = before.len() + 1;
    let wait = before.len() + 2;
    assert(calls.len() == 3);
    assert(trace[record as int] == calls[1]);
    assert(trace[wait as int] == calls[2]);
    assert(trace[earlier] == before[earlier]);
    assert(trace[before.len() + 3 + later] == after[later]);
    assert(tied(trace, earlier, record as int, wait as int, before.len() + 3 + later));
}

/// Whatever was placed on a forked queue before it is joined is complete
/// before anything that is placed on the device's queue afterwards starts.
///
/// `before` and `after` are the requests made before and after the join;
/// position `earlier` of `before` is on the forked queue and position
/// `later` of `after` is on the device's one.
pub proof fn lemma_join_waits_for_stream(
    stream: StreamView,
    before: Seq<DriverCall>,
    after: Seq<DriverCall>,
    earlier: int,
    later: int,
)
    requires
        stream.wf(),
        0 <= earlier < before.len(),
        before[earlier].queue() == Some(stream.stream),
        0 <= later < after.len(),
        after[later].queue() == Some(stream.default_stream),
    ensures
        completes_before(
            before + stream.join().calls() + after,
            earlier,
            before.len() + stream.join().calls().len() + later,
        ),
{
    let calls = stream.join().calls();
    let trace = before + calls + after;
    let record = before.len();
    let wait = before.len() + 1;
    assert(calls.len() == 3);
    assert(trace[record as int] == calls[0]);
    assert(trace[wait as int] == calls[1]);
    assert(trace[earlier] == before[earlier]);
    assert(trace[before.len() + 3 + later] == after[later]);
    assert(tied(trace, earlier, record as int, wait as int, before.len() + 3 + later));
}

/// Reading a region back is the one thing that makes the calling thread
/// wait: of the plans that make, fill, copy and free regions and that
/// fork, tie and join queues, no request blocks, and of the plan that reads
/// a region back, both do.
pub proof fn lemma_only_readback_blocks<T>(
    slice: SliceView<T>,
    source: SliceView<T>,
    stream: StreamView,
    at: int,
)
    ensures
        0 <= at < slice.allocation().calls().len() ==> !slice.allocation().calls()[at].blocks(),
        0 <= at < slice.upload().calls().len() ==> !slice.upload().calls()[at].blocks(),
        0 <= at < slice.filling().calls().len() ==> !slice.filling().calls()[at].blocks(),
        0 <= at < slice.duplication(source).calls().len() ==> !slice.duplication(
            source,
        ).calls()[at].blocks(),
        0 <= at < slice.freeing().calls().len() ==> !slice.freeing().calls()[at].blocks(),
        0 <= at < stream.fork().calls().len() ==> !stream.fork().calls()[at].blocks(),
        0 <= at < stream.awaiting_default().calls().len()
            ==> !stream.awaiting_default().calls()[at].blocks(),
        0 <= at < stream.awaited().calls().len() ==> !stream.awaited().calls()[at].blocks(),
        0 <= at < stream.join().calls().len() ==> !stream.join().calls()[at].blocks(),
        0 <= at < slice.readback().calls().len() ==> slice.readback().calls()[at].blocks(),
{
}

/// A plan that fails leaves nothing behind: where the copy of an upload
/// or of a duplicate is refused, the region that was reserved for it is
/// given back, and where a fork cannot be tied to the device's queue, the
/// new queue is joined and destroyed.
pub proof fn lemma_failed_plans_give_back<T>(slice: SliceView<T>, source: SliceView<T>, stream: StreamView)
    ensures
        slice.upload().requests(Some(0)) == seq![slice.reserve()],
        slice.upload().requests(Some(1)) == slice.upload().calls().push(slice.give_back()),
        slice.duplication(source).requests(Some(0)) == seq![slice.reserve()],
        slice.duplication(source).requests(Some(1)) == slice.duplication(source).calls().push(
            slice.give_back(),
        ),
        stream.fork().requests(Some(0)) == seq![DriverCall::StreamCreate { stream: stream.stream }],
        stream.fork().requests(Some(1)) == stream.fork().calls().take(2) + stream.join_calls(),
        stream.fork().requests(Some(2)) == stream.fork().calls() + stream.join_calls(),
{
    assert(slice.upload().unwinding(1) =~= seq![slice.give_back()]);
    assert(slice.upload().requests(Some(0)) =~= seq![slice.reserve()]);
    assert(slice.upload().requests(Some(1)) =~= slice.upload().calls().push(slice.give_back()));
    assert(slice.duplication(source).unwinding(1) =~= seq![slice.give_back()]);
    assert(slice.duplication(source).requests(Some(0)) =~= seq![slice.reserve()]);
    assert(slice.duplication(source).requests(Some(1)) =~= slice.duplication(
        source,
    ).calls().push(slice.give_back()));
    assert(stream.fork().unwinding(3) =~= stream.join_calls());
    assert(stream.fork().requests(Some(0)) =~= seq![
        DriverCall::StreamCreate { stream: stream.stream },
    ]);
    assert(stream.fork().calls().take(3) =~= stream.fork().calls());
}

} // verus!
