use std::collections::BTreeMap;

use cudarc::cudnn::descriptor::TensorDescriptor;
use cudarc::cudnn::filter::Filter;
use cudarc::cudnn::handle::CudnnHandle;
use cudarc::cudnn::tensor::Tensor4D;
use cudarc::driver::call::{DataType, DriverCall};
use cudarc::driver::device::{CudaContext, CudaDevice};
use cudarc::driver::plan::Plan;
use cudarc::driver::range::IndexRange;

/// How a run of a plan ended.
#[derive(Debug, PartialEq)]
enum Outcome {
    /// Every step succeeded; a readback delivered these elements.
    Done(Option<Vec<f64>>),
    /// The driver refused a step whose failure is reported.
    Surfaced(DriverCall),
    /// The driver refused a step that must succeed.
    Aborted(DriverCall),
}

/// A stand-in for the driver that keeps the regions in host memory and
/// carries every request out at once, in the order in which it is made.
struct Executor {
    regions: BTreeMap<u64, Vec<f64>>,
    streams: Vec<u64>,
    descriptors: Vec<u64>,
    modules: Vec<u64>,
    trace: Vec<DriverCall>,
    refused: Vec<DriverCall>,
}

impl Executor {
    fn new() -> Executor {
        Executor {
            regions: BTreeMap::new(),
            streams: vec![0],
            descriptors: Vec::new(),
            modules: Vec::new(),
            trace: Vec::new(),
            refused: Vec::new(),
        }
    }

    fn perform(&mut self, call: DriverCall, mirror: Option<&Vec<f64>>, scalar: f64) -> Result<Option<Vec<f64>>, ()> {
        self.trace.push(call);
        if self.refused.contains(&call) {
            return Err(());
        }
        match call {
            DriverCall::MemAllocAsync { region, bytes, stream } => {
                assert!(self.streams.contains(&stream));
                assert!(!self.regions.contains_key(&region));
                self.regions.insert(region, vec![f64::NAN; bytes / 8]);
            }
            DriverCall::MemFreeAsync { region, stream } => {
                assert!(self.streams.contains(&stream));
                assert!(self.regions.remove(&region).is_some());
            }
            DriverCall::MemcpyHtoDAsync { region, bytes, .. } => {
                let source = mirror.unwrap();
                assert_eq!(source.len() * 8, bytes);
                self.regions.get_mut(&region).unwrap().copy_from_slice(source);
            }
            DriverCall::MemcpyDtoDAsync { src, dst, bytes, .. } => {
                let source = self.regions[&src].clone();
                assert_eq!(source.len() * 8, bytes);
                self.regions.get_mut(&dst).unwrap().copy_from_slice(&source);
            }
            DriverCall::FillAsync { region, count, .. } => {
                let target = self.regions.get_mut(&region).unwrap();
                assert_eq!(target.len(), count);
                target.iter_mut().for_each(|element| *element = scalar);
            }
            DriverCall::MemcpyDtoH { region, bytes } => {
                let source = self.regions[&region].clone();
                assert_eq!(source.len() * 8, bytes);
                return Ok(Some(source));
            }
            DriverCall::StreamCreate { stream } => {
                assert!(!self.streams.contains(&stream));
                self.streams.push(stream);
            }
            DriverCall::StreamDestroy { stream } => {
                assert!(self.streams.contains(&stream));
                self.streams.retain(|live| *live != stream);
            }
            DriverCall::CreateTensorDescriptor { descriptor }
            | DriverCall::CreateFilterDescriptor { descriptor } => {
                assert!(!self.descriptors.contains(&descriptor));
                self.descriptors.push(descriptor);
            }
            DriverCall::SetTensor4dDescriptor { descriptor, .. }
            | DriverCall::SetFilter4dDescriptor { descriptor, .. } => {
                assert!(self.descriptors.contains(&descriptor));
            }
            DriverCall::DestroyTensorDescriptor { descriptor }
            | DriverCall::DestroyFilterDescriptor { descriptor } => {
                assert!(self.descriptors.contains(&descriptor));
                self.descriptors.retain(|live| *live != descriptor);
            }
            DriverCall::SetTensor { descriptor, region, .. } => {
                assert!(self.descriptors.contains(&descriptor));
                self.regions.get_mut(&region).unwrap().iter_mut().for_each(|element| *element = scalar);
            }
            DriverCall::ModuleLoad { module } => {
                assert!(!self.modules.contains(&module));
                self.modules.push(module);
            }
            DriverCall::ModuleGetFunction { module, .. } => {
                assert!(self.modules.contains(&module));
            }
            DriverCall::ModuleUnload { module } => {
                assert!(self.modules.contains(&module));
                self.modules.retain(|live| *live != module);
            }
            DriverCall::EventRecord { stream }
            | DriverCall::StreamWaitEvent { stream }
            | DriverCall::StreamSynchronize { stream } => {
                assert!(self.streams.contains(&stream));
            }
            _ => {}
        }
        Ok(None)
    }

    fn run_with(&mut self, plan: &Plan, mirror: Option<&Vec<f64>>, scalar: f64) -> Outcome {
        let mut delivered = None;
        for (at, step) in plan.steps.iter().enumerate() {
            match self.perform(step.call, mirror, scalar) {
                Ok(Some(elements)) => delivered = Some(elements),
                Ok(None) => {}
                Err(()) => match plan.recovery(at) {
                    None => return Outcome::Aborted(step.call),
                    Some(release) => {
                        for call in release {
                            self.perform(call, None, 0.0).unwrap();
                        }
                        return Outcome::Surfaced(step.call);
                    }
                },
            }
        }
        Outcome::Done(delivered)
    }

    fn run(&mut self, plan: &Plan) -> Outcome {
        self.run_with(plan, None, 0.0)
    }

    fn read(&mut self, plan: &Plan) -> Vec<f64> {
        match self.run(plan) {
            Outcome::Done(Some(elements)) => elements,
            other => panic!("no elements were delivered: {:?}", other),
        }
    }
}

fn session() -> (CudaDevice, CudaContext, Executor) {
    let (device, context, plan) = CudaDevice::new(0).unwrap();
    let mut executor = Executor::new();
    assert_eq!(executor.run(&plan), Outcome::Done(None));
    (device, context, executor)
}

#[test]
fn test_create_tensor() {
    let (mut device, context, mut executor) = session();
    let data = [[[[0.0, 1.0]]], [[[2.0, 3.0]]]];
    let (t, plan) = Tensor4D::alloc_with(&mut device, &context, DataType::Double, data).unwrap();
    assert_eq!(executor.run_with(&plan, t.data().host_buf(), 0.0), Outcome::Done(None));
    let flat = executor.read(&t.get_data());
    let on_gpu = [[[[flat[0], flat[1]]]], [[[flat[2], flat[3]]]]];
    assert_eq!(flat.len(), 4);
    assert_eq!(data, on_gpu);
}

#[test]
fn end_to_end_allocate_read_back_and_slice() {
    let (mut device, context, mut executor) = session();
    let data = [[[[0.0, 1.0]]], [[[2.0, 3.0]]]];
    let (tensor, plan) =
        Tensor4D::<f64, 2, 1, 1, 2>::alloc_with(&mut device, &context, DataType::Double, data).unwrap();
    assert_eq!(executor.run_with(&plan, tensor.data().host_buf(), 0.0), Outcome::Done(None));
    assert_eq!(executor.read(&tensor.get_data()), vec![0.0, 1.0, 2.0, 3.0]);
    let view = tensor.data().try_slice(IndexRange::to(2)).unwrap();
    assert_eq!(view.len(), 2);
    assert_eq!(view.start(), 0);
    assert_eq!(view.ptr(), 0);
    assert!(tensor.data().try_slice(IndexRange::new(5, 6)).is_none());
}

#[test]
fn what_is_uploaded_is_what_is_read_back() {
    let (mut device, context, mut executor) = session();
    let buffers: Vec<Vec<f64>> = vec![
        vec![],
        vec![0.0],
        vec![-0.0, 1.5, f64::MAX, f64::MIN_POSITIVE, f64::INFINITY],
        (0..100).map(|i| i as f64 * 0.25).collect(),
    ];
    for buffer in buffers {
        let (slice, plan) = device.allocate_from(&context, buffer.clone()).unwrap();
        assert_eq!(executor.run_with(&plan, slice.host_buf(), 0.0), Outcome::Done(None));
        let back = executor.read(&slice.to_host());
        assert_eq!(back.len(), buffer.len());
        for (read, written) in back.iter().zip(buffer.iter()) {
            assert_eq!(read.to_bits(), written.to_bits());
        }
        assert_eq!(executor.run(&slice.free()), Outcome::Done(None));
    }
    assert!(executor.regions.is_empty());
}

#[test]
fn writing_a_duplicate_leaves_the_source_alone() {
    let (mut device, context, mut executor) = session();
    let (source, plan) = device.allocate_from(&context, vec![1.0, 2.0, 3.0]).unwrap();
    assert_eq!(executor.run_with(&plan, source.host_buf(), 0.0), Outcome::Done(None));
    let (copy, plan) = source.try_clone(&mut device).unwrap();
    assert_eq!(executor.run(&plan), Outcome::Done(None));
    assert_eq!(executor.read(&copy.to_host()), vec![1.0, 2.0, 3.0]);
    assert_eq!(executor.run_with(&copy.fill(), None, 9.0), Outcome::Done(None));
    assert_eq!(executor.read(&copy.to_host()), vec![9.0, 9.0, 9.0]);
    assert_eq!(executor.read(&source.to_host()), vec![1.0, 2.0, 3.0]);
    assert_eq!(source.host_buf(), Some(&vec![1.0, 2.0, 3.0]));
    assert_eq!(executor.run(&copy.free()), Outcome::Done(None));
    assert_eq!(executor.read(&source.to_host()), vec![1.0, 2.0, 3.0]);
}

#[test]
fn fill_sets_every_element() {
    let (mut device, context, mut executor) = session();
    let (slice, plan) = device.allocate::<f64>(&context, 5).unwrap();
    assert_eq!(executor.run(&plan), Outcome::Done(None));
    assert_eq!(executor.run_with(&slice.fill(), None, 2.5), Outcome::Done(None));
    assert_eq!(executor.read(&slice.to_host()), vec![2.5; 5]);
}

#[test]
fn a_refused_upload_gives_the_region_back() {
    let (mut device, context, mut executor) = session();
    let (slice, plan) = device.allocate_from(&context, vec![1.0, 2.0]).unwrap();
    let copy = DriverCall::MemcpyHtoDAsync { region: 1, bytes: 16, stream: 0 };
    executor.refused.push(copy);
    assert_eq!(executor.run_with(&plan, slice.host_buf(), 0.0), Outcome::Surfaced(copy));
    assert!(executor.regions.is_empty());
    assert_eq!(
        executor.trace[5..],
        [
            DriverCall::MemAllocAsync { region: 1, bytes: 16, stream: 0 },
            copy,
            DriverCall::MemFreeAsync { region: 1, stream: 0 },
        ]
    );
}

#[test]
fn a_refused_allocation_leaves_nothing_to_undo() {
    let (mut device, context, mut executor) = session();
    let (_, plan) = device.allocate_from(&context, vec![1.0, 2.0]).unwrap();
    let reserve = DriverCall::MemAllocAsync { region: 1, bytes: 16, stream: 0 };
    executor.refused.push(reserve);
    assert_eq!(executor.run(&plan), Outcome::Surfaced(reserve));
    assert_eq!(executor.trace.len(), 6);
    assert!(executor.regions.is_empty());
}

#[test]
fn a_refused_duplicate_gives_only_the_new_region_back() {
    let (mut device, context, mut executor) = session();
    let (source, plan) = device.allocate_from(&context, vec![4.0]).unwrap();
    assert_eq!(executor.run_with(&plan, source.host_buf(), 0.0), Outcome::Done(None));
    let (_, plan) = source.try_clone(&mut device).unwrap();
    let copy = DriverCall::MemcpyDtoDAsync { src: 1, dst: 2, bytes: 8, stream: 0 };
    executor.refused.push(copy);
    assert_eq!(executor.run(&plan), Outcome::Surfaced(copy));
    assert_eq!(executor.regions.keys().copied().collect::<Vec<u64>>(), vec![1]);
    assert_eq!(executor.read(&source.to_host()), vec![4.0]);
}

#[test]
fn a_refused_fork_joins_and_destroys_the_queue() {
    let (mut device, context, mut executor) = session();
    let (_, plan) = device.fork_default_stream(&context).unwrap();
    let wait = DriverCall::StreamWaitEvent { stream: 1 };
    executor.refused.push(wait);
    assert_eq!(executor.run(&plan), Outcome::Surfaced(wait));
    assert_eq!(executor.streams, vec![0]);
    assert_eq!(
        executor.trace[5..],
        [
            DriverCall::StreamCreate { stream: 1 },
            DriverCall::EventRecord { stream: 0 },
            wait,
            DriverCall::EventRecord { stream: 1 },
            DriverCall::StreamWaitEvent { stream: 0 },
            DriverCall::StreamDestroy { stream: 1 },
        ]
    );
}

#[test]
fn a_refused_free_is_fatal() {
    let (mut device, context, mut executor) = session();
    let (slice, plan) = device.allocate::<f64>(&context, 1).unwrap();
    assert_eq!(executor.run(&plan), Outcome::Done(None));
    let free = DriverCall::MemFreeAsync { region: 1, stream: 0 };
    executor.refused.push(free);
    assert_eq!(executor.run(&slice.free()), Outcome::Aborted(free));
}

#[test]
fn a_refused_bring_up_is_reported_and_leaves_no_context() {
    let (_, _, plan) = CudaDevice::new(0).unwrap();
    let mut executor = Executor::new();
    executor.refused.push(DriverCall::PrimaryCtxRetain);
    assert_eq!(executor.run(&plan), Outcome::Surfaced(DriverCall::PrimaryCtxRetain));
    assert_eq!(executor.trace.len(), 3);
    let mut executor = Executor::new();
    executor.refused.push(DriverCall::Init);
    assert_eq!(executor.run(&plan), Outcome::Surfaced(DriverCall::Init));
    assert_eq!(executor.trace.len(), 1);
    let mut executor = Executor::new();
    executor.refused.push(DriverCall::EventCreate);
    assert_eq!(executor.run(&plan), Outcome::Surfaced(DriverCall::EventCreate));
    assert_eq!(
        executor.trace,
        vec![
            DriverCall::Init,
            DriverCall::DeviceGet { ordinal: 0 },
            DriverCall::PrimaryCtxRetain,
            DriverCall::CtxSetCurrent,
            DriverCall::EventCreate,
            DriverCall::PrimaryCtxRelease,
        ]
    );
}

#[test]
fn a_refused_teardown_is_fatal() {
    let (device, context, mut executor) = session();
    executor.refused.push(DriverCall::EventDestroy);
    let plan = device.teardown(context).unwrap();
    assert_eq!(executor.run(&plan), Outcome::Aborted(DriverCall::EventDestroy));
}

/// The position of the last request at or before `end` that ties queue
/// `from` to queue `to`: a record on `from`, then a wait on `to`, with no
/// other record in between.
fn tie(trace: &[DriverCall], from: u64, to: u64) -> Option<(usize, usize)> {
    for wait in (0..trace.len()).rev() {
        if trace[wait] != (DriverCall::StreamWaitEvent { stream: to }) {
            continue;
        }
        for record in (0..wait).rev() {
            if let DriverCall::EventRecord { stream } = trace[record] {
                if stream == from {
                    return Some((record, wait));
                }
                break;
            }
        }
    }
    None
}

#[test]
fn work_before_a_fork_precedes_the_forked_queue_and_a_join_precedes_what_follows() {
    let (mut device, context, mut executor) = session();
    let (input, plan) = device.allocate_from(&context, vec![1.0, 2.0]).unwrap();
    assert_eq!(executor.run_with(&plan, input.host_buf(), 0.0), Outcome::Done(None));
    let written = executor.trace.len() - 1;
    let (stream, plan) = device.fork_default_stream(&context).unwrap();
    assert_eq!(executor.run(&plan), Outcome::Done(None));
    let (record, wait) = tie(&executor.trace, 0, stream.stream()).unwrap();
    assert!(written < record && record < wait);
    let on_fork = DriverCall::MemcpyDtoDAsync { src: 1, dst: 1, bytes: 16, stream: stream.stream() };
    executor.perform(on_fork, None, 0.0).unwrap();
    let forked_work = executor.trace.len() - 1;
    assert!(wait < forked_work);
    let handle = stream.stream();
    assert_eq!(executor.run(&stream.join()), Outcome::Done(None));
    let (record, wait) = tie(&executor.trace, handle, 0).unwrap();
    assert!(forked_work < record && record < wait);
    assert_eq!(executor.read(&input.to_host()), vec![1.0, 2.0]);
    assert!(wait < executor.trace.len() - 2);
    assert_eq!(executor.streams, vec![0]);
}

#[test]
fn a_whole_session_leaves_nothing_behind() {
    let (mut device, context, mut executor) = session();
    let (slice, plan) = device.allocate_from(&context, vec![1.0]).unwrap();
    assert_eq!(executor.run_with(&plan, slice.host_buf(), 0.0), Outcome::Done(None));
    let (stream, plan) = device.fork_default_stream(&context).unwrap();
    assert_eq!(executor.run(&plan), Outcome::Done(None));
    assert_eq!(executor.run(&device.wait_for(&stream).unwrap()), Outcome::Done(None));
    assert_eq!(executor.run(&stream.join()), Outcome::Done(None));
    assert_eq!(executor.run(&slice.free()), Outcome::Done(None));
    assert_eq!(executor.run(&device.teardown(context).unwrap()), Outcome::Done(None));
    assert!(executor.regions.is_empty());
    assert_eq!(executor.streams, vec![0]);
    assert_eq!(
        executor.trace[executor.trace.len() - 2..],
        [DriverCall::EventDestroy, DriverCall::PrimaryCtxRelease]
    );
}

#[test]
fn a_tensor_whose_descriptor_is_refused_leaves_nothing_behind() {
    let (mut device, context, mut executor) = session();
    let create = DriverCall::CreateTensorDescriptor { descriptor: 2 };
    executor.refused.push(create);
    let (tensor, plan) =
        Tensor4D::alloc_with(&mut device, &context, DataType::Double, [[[[1.0, 2.0]]]]).unwrap();
    assert_eq!(executor.run_with(&plan, tensor.data().host_buf(), 0.0), Outcome::Surfaced(create));
    assert!(executor.regions.is_empty());
    assert!(executor.descriptors.is_empty());
    assert_eq!(*executor.trace.last().unwrap(), DriverCall::MemFreeAsync { region: 1, stream: 0 });
}

#[test]
fn a_tensor_whose_shape_is_refused_destroys_the_descriptor_first() {
    let (mut device, context, mut executor) = session();
    let (tensor, plan) =
        Tensor4D::<f64, 1, 1, 1, 2>::alloc_uninit(&mut device, &context, DataType::Double).unwrap();
    let set = plan.steps[2].call;
    executor.refused.push(set);
    assert_eq!(executor.run(&plan), Outcome::Surfaced(set));
    assert!(executor.regions.is_empty());
    assert!(executor.descriptors.is_empty());
    assert_eq!(
        executor.trace[executor.trace.len() - 2..],
        [
            DriverCall::DestroyTensorDescriptor { descriptor: tensor.get_descriptor() },
            DriverCall::MemFreeAsync { region: tensor.get_data_ptr(), stream: 0 },
        ]
    );
}

#[test]
fn a_tensor_that_cannot_be_set_is_taken_apart() {
    let (mut device, context, mut executor) = session();
    let (_, plan) = Tensor4D::<f64, 1, 1, 1, 2>::alloc_all_same(
        &mut device,
        &context,
        &CudnnHandle(9),
        DataType::Double,
    )
    .unwrap();
    let set = DriverCall::SetTensor { handle: 9, descriptor: 2, region: 1 };
    executor.refused.push(set);
    assert_eq!(executor.run_with(&plan, None, 4.0), Outcome::Surfaced(set));
    assert!(executor.regions.is_empty());
    assert!(executor.descriptors.is_empty());
    let (tensor, plan) = Tensor4D::<f64, 1, 1, 1, 2>::alloc_all_same(
        &mut device,
        &context,
        &CudnnHandle(9),
        DataType::Double,
    )
    .unwrap();
    assert_eq!(executor.run_with(&plan, None, 4.0), Outcome::Done(None));
    assert_eq!(executor.read(&tensor.get_data()), vec![4.0, 4.0]);
    assert_eq!(executor.run(&tensor.free()), Outcome::Done(None));
    assert!(executor.regions.is_empty());
    assert!(executor.descriptors.is_empty());
}

#[test]
fn a_descriptor_whose_shape_is_refused_is_destroyed() {
    let (mut device, _context, mut executor) = session();
    let (descriptor, plan) =
        TensorDescriptor::<f64, 1, 2, 3, 4>::create(&mut device, DataType::Double).unwrap();
    let set = plan.steps[1].call;
    executor.refused.push(set);
    assert_eq!(executor.run(&plan), Outcome::Surfaced(set));
    assert!(executor.descriptors.is_empty());
    assert_eq!(
        *executor.trace.last().unwrap(),
        DriverCall::DestroyTensorDescriptor { descriptor: descriptor.get_descriptor() }
    );
    let create = plan.steps[0].call;
    let mut executor = Executor::new();
    executor.refused.push(create);
    assert_eq!(executor.run(&plan), Outcome::Surfaced(create));
    assert_eq!(executor.trace, vec![create]);
}

#[test]
fn a_filter_on_a_region_gives_the_region_back_when_it_cannot_be_described() {
    let (mut device, context, mut executor) = session();
    let (allocation, plan) = device.allocate::<f64>(&context, 4).unwrap();
    assert_eq!(executor.run(&plan), Outcome::Done(None));
    let (filter, plan) = Filter::<f64, 2, 2, 1, 1>::create(allocation, &mut device, DataType::Double).unwrap();
    let create = DriverCall::CreateFilterDescriptor { descriptor: filter.get_descriptor() };
    executor.refused.push(create);
    assert_eq!(executor.run(&plan), Outcome::Surfaced(create));
    assert!(executor.regions.is_empty());
    assert!(executor.descriptors.is_empty());
}

#[test]
fn a_module_whose_function_is_missing_is_unloaded() {
    let (mut device, _context, mut executor) = session();
    let names = vec!["f".to_string(), "g".to_string()];
    let (module, plan) = device.load_module("m", &names).unwrap().unwrap();
    let missing = DriverCall::ModuleGetFunction { module: module.cu_module, function: 3 };
    executor.refused.push(missing);
    assert_eq!(executor.run(&plan), Outcome::Surfaced(missing));
    assert!(executor.modules.is_empty());
    assert!(!device.has_module("m"));
    let (again, plan) = device.load_module("m", &names).unwrap().unwrap();
    assert_eq!(executor.run(&plan), Outcome::Done(None));
    assert!(device.register_module(again));
    assert!(device.has_module("m"));
    assert_eq!(executor.modules, vec![4]);
}
