use cudarc::driver::call::DriverCall;
use cudarc::driver::device::{CudaContext, CudaDevice};
use cudarc::driver::error::DeviceError;
use cudarc::driver::plan::{OnFailure, Plan, Step};
use cudarc::driver::range::IndexRange;

fn step(call: DriverCall, on_failure: OnFailure) -> Step {
    Step { call, on_failure }
}

fn device_at(ordinal: usize) -> (CudaDevice, CudaContext) {
    let (device, context, _) = CudaDevice::new(ordinal).unwrap();
    (device, context)
}

fn device() -> (CudaDevice, CudaContext) {
    device_at(0)
}

#[test]
fn an_empty_plan_asks_nothing() {
    let plan = Plan::empty();
    assert_eq!(plan.steps, vec![]);
    assert_eq!(plan.release, vec![]);
}

#[test]
fn push_adds_at_the_end() {
    let mut plan = Plan::empty();
    plan.push(DriverCall::Init, OnFailure::Abort);
    plan.push(DriverCall::EventCreate, OnFailure::Surface);
    assert_eq!(
        plan.steps,
        vec![
            step(DriverCall::Init, OnFailure::Abort),
            step(DriverCall::EventCreate, OnFailure::Surface)
        ]
    );
    assert_eq!(plan.release, vec![]);
}

#[test]
fn bring_up_asks_in_order() {
    let (device, context, plan) = CudaDevice::new(3).unwrap();
    assert_eq!(device.ordinal(), 3);
    assert_eq!(device.stream(), 0);
    assert_eq!(context.ordinal(), 3);
    assert_eq!(context.stream(), 0);
    assert!(device.governs(&context));
    assert_eq!(
        plan.steps,
        vec![
            step(DriverCall::Init, OnFailure::Surface),
            step(DriverCall::DeviceGet { ordinal: 3 }, OnFailure::Surface),
            step(DriverCall::PrimaryCtxRetain, OnFailure::Surface),
            step(DriverCall::CtxSetCurrent, OnFailure::Release(1)),
            step(DriverCall::EventCreate, OnFailure::Release(1)),
        ]
    );
    assert_eq!(plan.release, vec![DriverCall::EventDestroy, DriverCall::PrimaryCtxRelease]);
    assert_eq!(plan.unwind(1), vec![DriverCall::PrimaryCtxRelease]);
}

#[test]
fn an_ordinal_beyond_the_index_type_is_refused() {
    let too_large = i32::MAX as usize + 1;
    assert_eq!(CudaDevice::new(too_large).unwrap_err(), DeviceError::InvalidOrdinal);
    assert!(CudaDevice::new(i32::MAX as usize).is_ok());
}

#[test]
fn handles_are_drawn_in_sequence() {
    let (mut device, context) = device();
    assert!(device.names(0));
    assert!(!device.names(1));
    assert_eq!(device.draw(1), Some(1));
    assert_eq!(device.draw(3), Some(2));
    assert_eq!(device.draw(1), Some(5));
    assert!(device.names(5));
    assert!(!device.names(6));
    assert!(device.has_handles(u64::MAX - 6));
    assert!(!device.has_handles(u64::MAX - 5));
    assert_eq!(device.draw(u64::MAX - 5), None);
    assert_eq!(device.draw(u64::MAX - 6), Some(6));
    assert_eq!(device.draw(1), None);
    assert_eq!(device.draw(0), Some(u64::MAX));
}

#[test]
fn allocate_reserves_bytes_on_the_device_queue() {
    let (mut device, context) = device();
    let (slice, plan) = device.allocate::<u32>(&context, 5).unwrap();
    assert_eq!(slice.len(), 5);
    assert_eq!(slice.region(), 1);
    assert_eq!(slice.device(), 0);
    assert_eq!(slice.stream(), 0);
    assert_eq!(slice.num_bytes(), 20);
    assert!(slice.host_buf().is_none());
    assert_eq!(
        plan.steps,
        vec![step(
            DriverCall::MemAllocAsync { region: 1, bytes: 20, stream: 0 },
            OnFailure::Surface
        )]
    );
    assert_eq!(plan.release, vec![DriverCall::MemFreeAsync { region: 1, stream: 0 }]);
    let (second, _) = device.allocate::<u8>(&context, 0).unwrap();
    assert_eq!(second.region(), 2);
    assert_eq!(second.num_bytes(), 0);
}

#[test]
fn allocate_refuses_a_size_beyond_the_address_type() {
    let (mut device, context) = device();
    assert_eq!(
        device.allocate::<u64>(&context, usize::MAX / 8 + 1).unwrap_err(),
        DeviceError::SizeOverflow
    );
    assert!(device.allocate::<u64>(&context, usize::MAX / 8).is_ok());
    assert_eq!(
        device.allocate_from(&context, vec![(); 3]).unwrap().0.num_bytes(),
        0
    );
}

#[test]
fn allocate_refuses_when_no_handle_is_left() {
    let (mut device, context) = device();
    device.draw(u64::MAX - 1).unwrap();
    assert_eq!(device.allocate::<u8>(&context, 1).unwrap_err(), DeviceError::HandlesExhausted);
    assert_eq!(device.allocate_from(&context, vec![1u8]).unwrap_err(), DeviceError::HandlesExhausted);
    assert_eq!(device.fork_default_stream(&context).unwrap_err(), DeviceError::HandlesExhausted);
    assert_eq!(
        device.allocate::<u64>(&context, usize::MAX).unwrap_err(),
        DeviceError::SizeOverflow
    );
}

#[test]
fn allocate_from_uploads_and_keeps_the_mirror() {
    let (mut device, context) = device();
    let (slice, plan) = device.allocate_from(&context, vec![7u16, 8, 9]).unwrap();
    assert_eq!(slice.len(), 3);
    assert_eq!(slice.host_buf(), Some(&vec![7u16, 8, 9]));
    assert_eq!(
        plan.steps,
        vec![
            step(DriverCall::MemAllocAsync { region: 1, bytes: 6, stream: 0 }, OnFailure::Surface),
            step(
                DriverCall::MemcpyHtoDAsync { region: 1, bytes: 6, stream: 0 },
                OnFailure::Release(1)
            ),
        ]
    );
    assert_eq!(plan.release, vec![DriverCall::MemFreeAsync { region: 1, stream: 0 }]);
}

#[test]
fn fill_to_host_and_free_name_the_region() {
    let (mut device, context) = device();
    let (slice, _) = device.allocate::<u32>(&context, 4).unwrap();
    assert_eq!(
        slice.fill().steps,
        vec![step(DriverCall::FillAsync { region: 1, count: 4, stream: 0 }, OnFailure::Surface)]
    );
    let readback = slice.to_host();
    assert_eq!(
        readback.steps,
        vec![
            step(DriverCall::StreamSynchronize { stream: 0 }, OnFailure::Surface),
            step(DriverCall::MemcpyDtoH { region: 1, bytes: 16 }, OnFailure::Surface),
        ]
    );
    assert_eq!(readback.release, vec![]);
    let free = slice.free();
    assert_eq!(
        free.steps,
        vec![step(DriverCall::MemFreeAsync { region: 1, stream: 0 }, OnFailure::Abort)]
    );
    assert_eq!(free.release, vec![]);
}

#[test]
fn try_clone_copies_into_a_region_of_its_own() {
    let (mut device, context) = device();
    let (source, _) = device.allocate_from(&context, vec![1u32, 2, 3]).unwrap();
    let (copy, plan) = source.try_clone(&mut device).unwrap();
    assert_ne!(copy.region(), source.region());
    assert_eq!(copy.region(), 2);
    assert_eq!(copy.len(), 3);
    assert!(copy.host_buf().is_none());
    assert_eq!(source.host_buf(), Some(&vec![1u32, 2, 3]));
    assert_eq!(
        plan.steps,
        vec![
            step(DriverCall::MemAllocAsync { region: 2, bytes: 12, stream: 0 }, OnFailure::Surface),
            step(
                DriverCall::MemcpyDtoDAsync { src: 1, dst: 2, bytes: 12, stream: 0 },
                OnFailure::Release(1)
            ),
        ]
    );
    assert_eq!(plan.release, vec![DriverCall::MemFreeAsync { region: 2, stream: 0 }]);
}

#[test]
fn try_clone_refuses_a_region_of_another_device() {
    let (mut first, first_context) = device_at(0);
    let (mut second, second_context) = device_at(1);
    let (slice, _) = first.allocate::<u8>(&first_context, 4).unwrap();
    second.draw(8).unwrap();
    assert!(first.owns(&slice));
    assert!(!second.owns(&slice));
    assert_eq!(slice.try_clone(&mut second).unwrap_err(), DeviceError::ForeignHandle);
    assert_eq!(
        second.allocate::<u8>(&first_context, 4).unwrap_err(),
        DeviceError::ForeignHandle
    );
    assert_eq!(
        first.allocate_from(&second_context, vec![1u8]).unwrap_err(),
        DeviceError::ForeignHandle
    );
    let (mut fresh, _) = device_at(0);
    assert!(!fresh.owns(&slice));
    assert_eq!(slice.try_clone(&mut fresh).unwrap_err(), DeviceError::ForeignHandle);
    first.draw(u64::MAX - 2).unwrap();
    assert_eq!(slice.try_clone(&mut first).unwrap_err(), DeviceError::HandlesExhausted);
}

#[test]
fn windows_have_start_length_and_offset() {
    let (mut device, context) = device();
    let (slice, _) = device.allocate::<u32>(&context, 10).unwrap();
    let view = slice.try_slice(IndexRange::new(2, 6)).unwrap();
    assert_eq!((view.start(), view.len(), view.ptr(), view.region()), (2, 4, 8, 1));
    let view = slice.slice(IndexRange::inclusive(2, 5));
    assert_eq!((view.start(), view.len(), view.ptr()), (2, 4, 8));
    let view = slice.slice(IndexRange::starting_at(7));
    assert_eq!((view.start(), view.len(), view.ptr()), (7, 3, 28));
    let view = slice.slice(IndexRange::full());
    assert_eq!((view.start(), view.len(), view.ptr()), (0, 10, 0));
    let view = slice.slice(IndexRange::inclusive(9, 9));
    assert_eq!((view.start(), view.len(), view.ptr()), (9, 1, 36));
}

#[test]
fn windows_outside_the_region_are_absent() {
    let (mut device, context) = device();
    let (slice, _) = device.allocate::<u32>(&context, 4).unwrap();
    assert!(slice.try_slice(IndexRange::new(5, 6)).is_none());
    assert!(slice.try_slice(IndexRange::new(2, 1)).is_none());
    assert!(slice.try_slice(IndexRange::new(2, 2)).is_none());
    assert!(slice.try_slice(IndexRange::new(0, 5)).is_none());
    assert!(slice.try_slice(IndexRange::inclusive(0, 4)).is_none());
    assert!(slice.try_slice(IndexRange::inclusive(3, 2)).is_none());
    assert!(slice.try_slice(IndexRange::starting_at(4)).is_none());
    assert!(slice.try_slice(IndexRange::new(0, 4)).is_some());
    assert!(slice.try_slice(IndexRange::inclusive(3, 3)).is_some());
    let (empty, _) = device.allocate::<u32>(&context, 0).unwrap();
    assert!(empty.try_slice(IndexRange::full()).is_none());
}

#[test]
fn both_forms_of_a_span_open_the_same_window() {
    let (mut device, context) = device();
    let (slice, _) = device.allocate::<u64>(&context, 6).unwrap();
    for first in 0..6usize {
        for last in first..6usize {
            let closed = slice.slice(IndexRange::inclusive(first, last));
            let half_open = slice.slice(IndexRange::new(first, last + 1));
            assert_eq!((closed.start(), closed.len()), (first, last - first + 1));
            assert_eq!((half_open.start(), half_open.len()), (closed.start(), closed.len()));
            assert_eq!(half_open.ptr(), closed.ptr());
            assert_eq!(closed.ptr(), first * 8);
        }
    }
}

#[test]
fn exclusive_windows_resolve_like_shared_ones() {
    let (mut device, context) = device();
    let (mut slice, _) = device.allocate::<u16>(&context, 8).unwrap();
    {
        let view = slice.try_slice_mut(IndexRange::new(3, 8)).unwrap();
        assert_eq!((view.start(), view.len(), view.ptr(), view.region()), (3, 5, 6, 1));
    }
    {
        let view = slice.slice_mut(IndexRange::to_inclusive(0));
        assert_eq!((view.start(), view.len(), view.ptr()), (0, 1, 0));
    }
    assert!(slice.try_slice_mut(IndexRange::new(8, 9)).is_none());
    assert!(slice.try_slice_mut(IndexRange::new(4, 3)).is_none());
    assert_eq!(slice.len(), 8);
}

#[test]
fn fork_waits_for_the_device_queue() {
    let (mut device, context) = device();
    let (stream, plan) = device.fork_default_stream(&context).unwrap();
    assert_eq!(stream.stream(), 1);
    assert_eq!(stream.device(), 0);
    assert_eq!(
        plan.steps,
        vec![
            step(DriverCall::StreamCreate { stream: 1 }, OnFailure::Surface),
            step(DriverCall::EventRecord { stream: 0 }, OnFailure::Release(3)),
            step(DriverCall::StreamWaitEvent { stream: 1 }, OnFailure::Release(3)),
        ]
    );
    assert_eq!(
        plan.release,
        vec![
            DriverCall::EventRecord { stream: 1 },
            DriverCall::StreamWaitEvent { stream: 0 },
            DriverCall::StreamDestroy { stream: 1 },
        ]
    );
    let again = stream.wait_for_default();
    assert_eq!(
        again.steps,
        vec![
            step(DriverCall::EventRecord { stream: 0 }, OnFailure::Surface),
            step(DriverCall::StreamWaitEvent { stream: 1 }, OnFailure::Surface),
        ]
    );
}

#[test]
fn join_makes_the_device_queue_wait() {
    let (mut device, context) = device();
    let (stream, _) = device.fork_default_stream(&context).unwrap();
    let waited = device.wait_for(&stream).unwrap();
    assert_eq!(
        waited.steps,
        vec![
            step(DriverCall::EventRecord { stream: 1 }, OnFailure::Surface),
            step(DriverCall::StreamWaitEvent { stream: 0 }, OnFailure::Surface),
        ]
    );
    let joined = stream.join();
    assert_eq!(
        joined.steps,
        vec![
            step(DriverCall::EventRecord { stream: 1 }, OnFailure::Abort),
            step(DriverCall::StreamWaitEvent { stream: 0 }, OnFailure::Abort),
            step(DriverCall::StreamDestroy { stream: 1 }, OnFailure::Abort),
        ]
    );
    assert_eq!(joined.release, vec![]);
}

#[test]
fn wait_for_refuses_a_queue_of_another_device() {
    let (mut first, first_context) = device_at(0);
    let (mut second, _) = device_at(1);
    let (stream, _) = first.fork_default_stream(&first_context).unwrap();
    second.draw(4).unwrap();
    assert_eq!(second.wait_for(&stream).unwrap_err(), DeviceError::ForeignHandle);
    assert_eq!(
        second.fork_default_stream(&first_context).unwrap_err(),
        DeviceError::ForeignHandle
    );
    let (fresh, _) = device_at(0);
    assert_eq!(fresh.wait_for(&stream).unwrap_err(), DeviceError::ForeignHandle);
    assert!(first.wait_for(&stream).is_ok());
}

#[test]
fn teardown_of_a_bare_device() {
    let (device, context) = device();
    let plan = device.teardown(context).unwrap();
    assert_eq!(
        plan.steps,
        vec![
            step(DriverCall::EventDestroy, OnFailure::Abort),
            step(DriverCall::PrimaryCtxRelease, OnFailure::Abort),
        ]
    );
    assert_eq!(plan.release, vec![]);
}

#[test]
fn teardown_refuses_the_context_of_another_device() {
    let (first, first_context) = device_at(0);
    let (second, second_context) = device_at(1);
    let (first, returned) = first.teardown(second_context).unwrap_err();
    assert_eq!(first.ordinal(), 0);
    assert_eq!(returned.ordinal(), 1);
    assert!(second.governs(&returned));
    assert!(first.teardown(first_context).is_ok());
    assert!(second.teardown(returned).is_ok());
}

#[test]
fn unwind_takes_the_last_releases() {
    let (mut device, context) = device();
    let (_, plan) = device.fork_default_stream(&context).unwrap();
    assert_eq!(plan.unwind(0), vec![]);
    assert_eq!(plan.unwind(1), vec![DriverCall::StreamDestroy { stream: 1 }]);
    assert_eq!(
        plan.unwind(2),
        vec![DriverCall::StreamWaitEvent { stream: 0 }, DriverCall::StreamDestroy { stream: 1 }]
    );
    assert_eq!(plan.unwind(3), plan.release);
    assert_eq!(plan.unwind(4), plan.release);
    assert_eq!(plan.unwind(usize::MAX), plan.release);
    assert_eq!(Plan::empty().unwind(1), vec![]);
}

#[test]
fn recovery_follows_the_mark_of_the_step() {
    let (mut device, context) = device();
    let (_, plan) = device.allocate_from(&context, vec![1u8, 2]).unwrap();
    assert_eq!(plan.recovery(0), Some(vec![]));
    assert_eq!(plan.recovery(1), Some(vec![DriverCall::MemFreeAsync { region: 1, stream: 0 }]));
    assert_eq!(plan.recovery(2), Some(vec![]));
    let (slice, _) = device.allocate::<u8>(&context, 1).unwrap();
    assert_eq!(slice.free().recovery(0), None);
    let (stream, plan) = device.fork_default_stream(&context).unwrap();
    assert_eq!(plan.recovery(0), Some(vec![]));
    assert_eq!(plan.recovery(1), Some(plan.release.clone()));
    assert_eq!(plan.recovery(2), Some(plan.release.clone()));
    assert_eq!(stream.join().recovery(2), None);
    assert_eq!(Plan::empty().recovery(0), Some(vec![]));
}
