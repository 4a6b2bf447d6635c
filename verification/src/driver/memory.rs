//! What the regions hold, as far as the requests tell.
//!
//! The library never sees device memory. What it knows of a region is what
//! it asked the driver to write there: the mirror that was uploaded, or what
//! another region held when it was copied. This module says what a readback
//! delivers when the requests are carried out in the order in which they
//! were made, as one queue does and as tied queues do.

use vstd::prelude::*;
use crate::driver::call::DriverCall;
use crate::driver::device::DeviceView;
use crate::driver::order::{completes_before, drained};
use crate::driver::slice::SliceView;

verus! {

impl DriverCall {
    /// Whether the request changes what `region` holds, or whether there is
    /// such a region at all.
    pub open spec fn writes(self, region: u64) -> bool {
        match self {
            DriverCall::MemAllocAsync { region: target, .. } => target == region,
            DriverCall::MemFreeAsync { region: target, .. } => target == region,
            DriverCall::MemcpyHtoDAsync { region: target, .. } => target == region,
            DriverCall::MemcpyDtoDAsync { dst, .. } => dst == region,
            DriverCall::FillAsync { region: target, .. } => target == region,
            DriverCall::SetTensor { region: target, .. } => target == region,
            DriverCall::ConvolutionBackwardData { dx_data, workspace, .. } => dx_data == region
                || workspace == region,
            DriverCall::ConvolutionBackwardFilter { dw_data, workspace, .. } => dw_data == region
                || workspace == region,
            _ => false,
        }
    }
}

/// The elements that `region` holds after the requests of `trace`, where
/// they are known: the mirror of the region if it was uploaded last, what
/// the source held if the region was last written by a copy, and `None`
/// where the region was last written otherwise, or never.
///
/// `mirrors` gives the host mirror of each region that has one.
pub open spec fn contents<T>(
    trace: Seq<DriverCall>,
    mirrors: Map<u64, Seq<T>>,
    region: u64,
) -> Option<Seq<T>>
    decreases trace.len(),
{
    if trace.len() == 0 {
        None
    } else if !trace.last().writes(region) {
        contents(trace.drop_last(), mirrors, region)
    } else {
        match trace.last() {
            DriverCall::MemcpyHtoDAsync { .. } => if mirrors.dom().contains(region) {
                Some(mirrors[region])
            } else {
                None
            },
            DriverCall::MemcpyDtoDAsync { src, .. } => contents(trace.drop_last(), mirrors, src),
            _ => None,
        }
    }
}

/// The elements that the readback at position `at` of `trace` delivers,
/// where they are known.
pub open spec fn delivered<T>(trace: Seq<DriverCall>, mirrors: Map<u64, Seq<T>>, at: int) -> Option<
    Seq<T>,
> {
    match trace[at] {
        DriverCall::MemcpyDtoH { region, .. } => contents(trace.take(at), mirrors, region),
        _ => None,
    }
}

/// A request that does not write a region leaves what it holds as it was.
pub proof fn lemma_untouched_region_keeps_contents<T>(
    trace: Seq<DriverCall>,
    mirrors: Map<u64, Seq<T>>,
    call: DriverCall,
    region: u64,
)
    requires
        !call.writes(region),
    ensures
        contents(trace.push(call), mirrors, region) == contents(trace, mirrors, region),
{
    assert(trace.push(call).drop_last() =~= trace);
}

/// Reading back what was just uploaded delivers the uploaded elements.
///
/// Whatever was asked `before`, a region that the device makes from `host`
/// and then reads back is read back as `host`: the last request of the
/// readback delivers exactly the elements that the upload took from the
/// mirror, and the upload is complete before that request starts.
pub proof fn lemma_round_trip<T>(
    device: DeviceView,
    host: Seq<T>,
    before: Seq<DriverCall>,
    mirrors: Map<u64, Seq<T>>,
)
    requires
        host.len() <= usize::MAX,
        mirrors.dom().contains(device.next_handle),
        mirrors[device.next_handle] == host,
    ensures
        ({
            let slice = device.fresh_region::<T>(host.len() as usize, Some(host));
            let trace = before + slice.upload().calls() + slice.readback().calls();
            &&& delivered(trace, mirrors, trace.len() - 1) == Some(host)
            &&& completes_before(trace, before.len() as int + 1, trace.len() - 1)
        }),
{
    let slice = device.fresh_region::<T>(host.len() as usize, Some(host));
    let upload = slice.upload().calls();
    let readback = slice.readback().calls();
    let trace = before + upload + readback;
    let at = trace.len() - 1;
    assert(upload.len() == 2 && readback.len() == 2);
    assert(trace[at] == readback[1]);
    let uploaded = before + upload;
    let synchronized = uploaded.push(readback[0]);
    assert(trace.take(at) =~= synchronized);
    lemma_untouched_region_keeps_contents(uploaded, mirrors, readback[0], slice.region);
    assert(uploaded.last() == upload[1]);
    assert(uploaded.last().writes(slice.region));
    assert(trace[before.len() as int + 1] == upload[1]);
    assert(trace[at - 1] == readback[0]);
    assert(drained(trace, before.len() as int + 1, at - 1, at));
}

/// A duplicate holds what its source held, and making it leaves the source
/// as it was.
pub proof fn lemma_duplicate_copies<T>(
    device: DeviceView,
    source: SliceView<T>,
    before: Seq<DriverCall>,
    mirrors: Map<u64, Seq<T>>,
)
    requires
        device.owns(source),
    ensures
        ({
            let copy = SliceView { region: device.next_handle, host: None, ..source };
            let trace = before + copy.duplication(source).calls();
            &&& contents(trace, mirrors, copy.region) == contents(before, mirrors, source.region)
            &&& contents(trace, mirrors, source.region) == contents(before, mirrors, source.region)
        }),
{
    let copy = SliceView { region: device.next_handle, host: None, ..source };
    let calls = copy.duplication(source).calls();
    let trace = before + calls;
    assert(calls.len() == 2);
    let reserved = before.push(calls[0]);
    assert(trace =~= reserved.push(calls[1]));
    assert(trace.drop_last() =~= reserved);
    assert(trace.last() == calls[1]);
    lemma_untouched_region_keeps_contents(before, mirrors, calls[0], source.region);
    lemma_untouched_region_keeps_contents(reserved, mirrors, calls[1], source.region);
}

/// Whatever is written to a duplicate, the source holds what it held.
///
/// `call` is any request that writes the duplicate that the device makes
/// of `source` and no other region.
pub proof fn lemma_duplicate_is_independent<T>(
    device: DeviceView,
    source: SliceView<T>,
    trace: Seq<DriverCall>,
    mirrors: Map<u64, Seq<T>>,
    call: DriverCall,
)
    requires
        device.owns(source),
        forall|region: u64| call.writes(region) ==> region == device.next_handle,
    ensures
        contents(trace.push(call), mirrors, source.region) == contents(
            trace,
            mirrors,
            source.region,
        ),
{
    lemma_untouched_region_keeps_contents(trace, mirrors, call, source.region);
}

} // verus!
