//! Regions of device memory, and the windows that can be opened on them.

use vstd::prelude::*;
use vstd::layout::size_of;
use crate::driver::call::DriverCall;
use crate::driver::device::{ContextView, CudaContext, CudaDevice, DeviceView};
use crate::driver::error::DeviceError;
use crate::driver::plan::{OnFailure, Plan, PlanView, Step};
use crate::driver::range::{IndexRange, RangeBound};

verus! {

/// An owning handle to a region of `len` elements of device memory.
///
/// The region lives in the context of one device, which the handle borrows:
/// the device cannot be torn down while the handle lives. The region is
/// never shared: a second region with the same contents is made by
/// [`CudaSlice::try_clone`], and the region is given back by
/// [`CudaSlice::free`].
#[derive(Debug)]
pub struct CudaSlice<'c, T> {
    context: &'c CudaContext,
    cu_device_ptr: u64,
    len: usize,
    host_buf: Option<Vec<T>>,
}

/// The mathematical content of a [`CudaSlice`].
pub struct SliceView<T> {
    /// The handle that names the region.
    pub region: u64,
    /// The number of elements.
    pub len: usize,
    /// The index of the device that the region lives on.
    pub device: usize,
    /// The queue on which the region is allocated, written and freed.
    pub stream: u64,
    /// The host-resident mirror: the elements that were uploaded, if any.
    pub host: Option<Seq<T>>,
}

impl<T> SliceView<T> {
    /// The size of the region in bytes.
    pub open spec fn bytes(self) -> int {
        self.len * size_of::<T>()
    }

    /// What holds of every region: its size in bytes fits the address type,
    /// and a mirror has one element for each of the region's.
    pub open spec fn wf(self) -> bool {
        &&& self.bytes() <= usize::MAX
        &&& self.host matches Some(elements) ==> elements.len() == self.len
    }

    /// The indices of the region, as a range.
    pub open spec fn indices(self) -> IndexRange {
        IndexRange { start: RangeBound::Unbounded, end: RangeBound::Excluded(self.len) }
    }

    /// The window that `range` denotes on the region, as the pair of its
    /// first index and its length, or `None` where `range` does not lie
    /// within the region or is empty.
    pub open spec fn span(self, range: IndexRange) -> Option<(usize, usize)> {
        match range.resolve(self.indices()) {
            Some((first, last)) => Some((first, (last - first + 1) as usize)),
            None => None,
        }
    }

    /// The request that reserves the region.
    pub open spec fn reserve(self) -> DriverCall {
        DriverCall::MemAllocAsync {
            region: self.region,
            bytes: self.bytes() as usize,
            stream: self.stream,
        }
    }

    /// The request that gives the region back.
    pub open spec fn give_back(self) -> DriverCall {
        DriverCall::MemFreeAsync { region: self.region, stream: self.stream }
    }

    /// The plan of an allocation: one request, whose failure is reported.
    pub open spec fn allocation(self) -> PlanView {
        PlanView {
            steps: seq![Step { call: self.reserve(), on_failure: OnFailure::Surface }],
            release: seq![self.give_back()],
        }
    }

    /// The plan of an allocation that is filled from the host mirror. Where
    /// the copy fails, the region is given back before the error is reported.
    pub open spec fn upload(self) -> PlanView {
        PlanView {
            steps: seq![
                Step { call: self.reserve(), on_failure: OnFailure::Surface },
                Step {
                    call: DriverCall::MemcpyHtoDAsync {
                        region: self.region,
                        bytes: self.bytes() as usize,
                        stream: self.stream,
                    },
                    on_failure: OnFailure::Release(1),
                },
            ],
            release: seq![self.give_back()],
        }
    }

    /// The plan that sets every element to one value.
    pub open spec fn filling(self) -> PlanView {
        PlanView {
            steps: seq![
                Step {
                    call: DriverCall::FillAsync {
                        region: self.region,
                        count: self.len,
                        stream: self.stream,
                    },
                    on_failure: OnFailure::Surface,
                },
            ],
            release: Seq::empty(),
        }
    }

    /// The plan that reads the region back: the queue is drained first, so
    /// that everything queued before has been written, then the bytes are copied.
    pub open spec fn readback(self) -> PlanView {
        PlanView {
            steps: seq![
                Step {
                    call: DriverCall::StreamSynchronize { stream: self.stream },
                    on_failure: OnFailure::Surface,
                },
                Step {
                    call: DriverCall::MemcpyDtoH {
                        region: self.region,
                        bytes: self.bytes() as usize,
                    },
                    on_failure: OnFailure::Surface,
                },
            ],
            release: Seq::empty(),
        }
    }

    /// The plan that makes `self` a copy of `source`. Where the copy fails,
    /// the new region is given back before the error is reported.
    pub open spec fn duplication(self, source: SliceView<T>) -> PlanView {
        PlanView {
            steps: seq![
                Step { call: self.reserve(), on_failure: OnFailure::Surface },
                Step {
                    call: DriverCall::MemcpyDtoDAsync {
                        src: source.region,
                        dst: self.region,
                        bytes: self.bytes() as usize,
                        stream: self.stream,
                    },
                    on_failure: OnFailure::Release(1),
                },
            ],
            release: seq![self.give_back()],
        }
    }

    /// The plan that frees the region. The request must succeed.
    pub open spec fn freeing(self) -> PlanView {
        PlanView {
            steps: seq![Step { call: self.give_back(), on_failure: OnFailure::Abort }],
            release: Seq::empty(),
        }
    }
}

impl<'c, T> View for CudaSlice<'c, T> {
    type V = SliceView<T>;

    closed spec fn view(&self) -> SliceView<T> {
        SliceView {
            region: self.cu_device_ptr,
            len: self.len,
            device: self.context@.ordinal,
            stream: self.context@.stream,
            host: match self.host_buf {
                Some(elements) => Some(elements@),
                None => None,
            },
        }
    }
}

/// The mathematical content of a window on a region.
pub struct WindowView {
    /// The handle of the region that the window lies on.
    pub region: u64,
    /// The index of the window's first element within the region.
    pub start: usize,
    /// The number of elements of the window.
    pub len: usize,
    /// The distance in bytes from the region's first byte to the window's.
    pub ptr: usize,
}

impl<T> SliceView<T> {
    /// The window that `range` denotes on the region, if there is one.
    pub open spec fn window(self, range: IndexRange) -> Option<WindowView> {
        match self.span(range) {
            Some((start, len)) => Some(
                WindowView {
                    region: self.region,
                    start,
                    len,
                    ptr: (start * size_of::<T>()) as usize,
                },
            ),
            None => None,
        }
    }
}

/// A window on a region that others may read at the same time.
#[derive(Debug)]
pub struct CudaView<'a, 'c, T> {
    slice: &'a CudaSlice<'c, T>,
    ptr: usize,
    start: usize,
    len: usize,
}

impl<'a, 'c, T> View for CudaView<'a, 'c, T> {
    type V = WindowView;

    closed spec fn view(&self) -> WindowView {
        WindowView {
            region: self.slice@.region,
            start: self.start,
            len: self.len,
            ptr: self.ptr,
        }
    }
}

impl<'a, 'c, T> CudaView<'a, 'c, T> {
    /// The region that the window lies on.
    pub closed spec fn parent(&self) -> SliceView<T> {
        self.slice@
    }

    /// The index of the window's first element within the region.
    pub fn start(&self) -> (r: usize)
        ensures
            r == self@.start,
    {
        self.start
    }

    /// The number of elements of the window.
    pub fn len(&self) -> (r: usize)
        ensures
            r == self@.len,
    {
        self.len
    }

    /// The distance in bytes from the region's first byte to the window's.
    pub fn ptr(&self) -> (r: usize)
        ensures
            r == self@.ptr,
    {
        self.ptr
    }

    /// The handle of the region that the window lies on.
    pub fn region(&self) -> (r: u64)
        ensures
            r == self@.region,
    {
        self.slice.region()
    }
}

/// A window on a region that excludes every other access to the region
/// for as long as it lives.
#[derive(Debug)]
pub struct CudaViewMut<'a, 'c, T> {
    slice: core::marker::PhantomData<&'a mut CudaSlice<'c, T>>,
    region: u64,
    ptr: usize,
    start: usize,
    len: usize,
}

impl<'a, 'c, T> View for CudaViewMut<'a, 'c, T> {
    type V = WindowView;

    closed spec fn view(&self) -> WindowView {
        WindowView { region: self.region, start: self.start, len: self.len, ptr: self.ptr }
    }
}

impl<'a, 'c, T> CudaViewMut<'a, 'c, T> {
    /// The index of the window's first element within the region.
    pub fn start(&self) -> (r: usize)
        ensures
            r == self@.start,
    {
        self.start
    }

    /// The number of elements of the window.
    pub fn len(&self) -> (r: usize)
        ensures
            r == self@.len,
    {
        self.len
    }

    /// The distance in bytes from the region's first byte to the window's.
    pub fn ptr(&self) -> (r: usize)
        ensures
            r == self@.ptr,
    {
        self.ptr
    }

    /// The handle of the region that the window lies on.
    pub fn region(&self) -> (r: u64)
        ensures
            r == self@.region,
    {
        self.region
    }
}

/// On a region of `len` elements a range denotes the indices from its
/// lowest to its highest, where an open end stands for the region's own. It
/// opens a window exactly when these lie within the region and in order.
pub proof fn lemma_span_is_clipped_range<T>(slice: SliceView<T>, range: IndexRange)
    ensures
        slice.span(range) == ({
            let lowest = range.start.lowest();
            let highest = if range.end is Unbounded {
                slice.len - 1
            } else {
                range.end.highest()
            };
            if 0 <= lowest <= highest < slice.len {
                Some((lowest as usize, (highest - lowest + 1) as usize))
            } else {
                None
            }
        }),
{
}

/// The forms of a range that denote the same indices `first..=last` of a
/// region open the same window on it: the half-open form and the closed
/// form, with the start written out or left open where it is the region's
/// first index, and with the end written out or left open where it is the
/// region's last.
pub proof fn lemma_range_forms_agree<T>(slice: SliceView<T>, first: usize, last: usize)
    requires
        first <= last < slice.len,
    ensures
        slice.span(
            IndexRange { start: RangeBound::Included(first), end: RangeBound::Included(last) },
        ) == Some((first, (last - first + 1) as usize)),
        slice.window(
            IndexRange {
                start: RangeBound::Included(first),
                end: RangeBound::Excluded((last + 1) as usize),
            },
        ) == slice.window(
            IndexRange { start: RangeBound::Included(first), end: RangeBound::Included(last) },
        ),
        first == 0 ==> slice.window(
            IndexRange { start: RangeBound::Unbounded, end: RangeBound::Included(last) },
        ) == slice.window(
            IndexRange { start: RangeBound::Included(first), end: RangeBound::Included(last) },
        ),
        first == 0 ==> slice.window(
            IndexRange {
                start: RangeBound::Unbounded,
                end: RangeBound::Excluded((last + 1) as usize),
            },
        ) == slice.window(
            IndexRange { start: RangeBound::Included(first), end: RangeBound::Included(last) },
        ),
        last == slice.len - 1 ==> slice.window(
            IndexRange { start: RangeBound::Included(first), end: RangeBound::Unbounded },
        ) == slice.window(
            IndexRange { start: RangeBound::Included(first), end: RangeBound::Included(last) },
        ),
        first == 0 && last == slice.len - 1 ==> slice.window(
            IndexRange { start: RangeBound::Unbounded, end: RangeBound::Unbounded },
        ) == slice.window(
            IndexRange { start: RangeBound::Included(first), end: RangeBound::Included(last) },
        ),
{
}

/// A closed range `start..=end` opens no window where its ends are out of
/// order or where `end` is not an index of the region; in every other case
/// it opens one.
pub proof fn lemma_closed_range_rejected<T>(slice: SliceView<T>, start: usize, end: usize)
    ensures
        (start > end || end >= slice.len) <==> slice.window(
            IndexRange { start: RangeBound::Included(start), end: RangeBound::Included(end) },
        ) is None,
{
}

/// A half-open range `start..end` opens no window where its ends are out of
/// order or where `end` lies at or beyond the length of the region, unless
/// it ends exactly where the region does and is not empty.
pub proof fn lemma_half_open_range_rejected<T>(slice: SliceView<T>, start: usize, end: usize)
    requires
        start > end || end >= slice.len,
        !(start < end && end == slice.len),
    ensures
        slice.window(
            IndexRange { start: RangeBound::Included(start), end: RangeBound::Excluded(end) },
        ) is None,
{
}

/// The product of two factors grows with the first of them.
proof fn lemma_offset_within(start: int, len: int, width: int)
    requires
        0 <= start <= len,
        0 <= width,
    ensures
        0 <= start * width <= len * width,
{
    assert(0 <= start * width <= len * width) by (nonlinear_arith)
        requires
            0 <= start <= len,
            0 <= width,
    ;
}

impl<'c, T> CudaSlice<'c, T> {
    #[verifier::type_invariant]
    pub open spec fn well_formed(&self) -> bool {
        self@.wf()
    }

    /// The number of elements of the region.
    pub fn len(&self) -> (r: usize)
        ensures
            r == self@.len,
            self@.wf(),
    {
        proof {
            use_type_invariant(self);
        }
        self.len
    }

    /// The handle that names the region.
    pub fn region(&self) -> (r: u64)
        ensures
            r == self@.region,
    {
        self.cu_device_ptr
    }

    /// The index of the device that the region lives on.
    pub fn device(&self) -> (r: usize)
        ensures
            r == self@.device,
    {
        self.context.ordinal()
    }

    /// The queue on which the region is allocated, written and freed.
    pub fn stream(&self) -> (r: u64)
        ensures
            r == self@.stream,
    {
        self.context.stream()
    }

    /// The context that the region lives in.
    pub fn context(&self) -> (r: &'c CudaContext)
        ensures
            r@.ordinal == self@.device,
            r@.stream == self@.stream,
    {
        self.context
    }

    /// The size of the region in bytes.
    pub fn num_bytes(&self) -> (r: usize)
        ensures
            r == self@.bytes(),
    {
        proof {
            use_type_invariant(self);
        }
        self.len * core::mem::size_of::<T>()
    }

    /// The host-resident mirror of the region: the elements that were
    /// uploaded when the region was made, if it was made from host data.
    pub fn host_buf(&self) -> (r: Option<&Vec<T>>)
        ensures
            match r {
                Some(elements) => self@.host == Some(elements@),
                None => self@.host is None,
            },
    {
        self.host_buf.as_ref()
    }

    /// Sets every element of the region to one value, in queue order. The
    /// value itself goes from the caller to the executor.
    pub fn fill(&self) -> (plan: Plan)
        ensures
            plan@ == self@.filling(),
    {
        let mut plan = Plan::empty();
        plan.push(
            DriverCall::FillAsync {
                region: self.cu_device_ptr,
                count: self.len,
                stream: self.context.stream(),
            },
            OnFailure::Surface,
        );
        proof {
            assert(plan@.steps =~= self@.filling().steps);
        }
        plan
    }

    /// Reads the region back to the host. This is the one plan that blocks
    /// the calling thread: the device's queue is drained before the copy.
    pub fn to_host(&self) -> (plan: Plan)
        ensures
            plan@ == self@.readback(),
    {
        let bytes: usize = self.num_bytes();
        let mut plan = Plan::empty();
        plan.push(
            DriverCall::StreamSynchronize { stream: self.context.stream() },
            OnFailure::Surface,
        );
        plan.push(
            DriverCall::MemcpyDtoH { region: self.cu_device_ptr, bytes },
            OnFailure::Surface,
        );
        proof {
            assert(plan@.steps =~= self@.readback().steps);
        }
        plan
    }

    /// Makes a second region of the same size on `device` and copies this
    /// one into it, in queue order. The new region has a handle of its own
    /// and no mirror.
    ///
    /// A region of another device is refused, and so is the request when
    /// the device has no handle left.
    pub fn try_clone(&self, device: &mut CudaDevice) -> (r: Result<
        (CudaSlice<'c, T>, Plan),
        DeviceError,
    >)
        ensures
            final(device)@.wf(),
            match r {
                Ok((copy, plan)) => {
                    &&& old(device)@.owns(self@)
                    &&& old(device)@.next_handle < u64::MAX
                    &&& final(device)@ == old(device)@.advanced(1)
                    &&& copy@ == (SliceView {
                        region: old(device)@.next_handle,
                        host: None,
                        ..self@
                    })
                    &&& copy@.region != self@.region
                    &&& plan@ == copy@.duplication(self@)
                },
                Err(e) => {
                    &&& final(device)@ == old(device)@
                    &&& e == if !old(device)@.owns(self@) {
                        DeviceError::ForeignHandle
                    } else {
                        DeviceError::HandlesExhausted
                    }
                    &&& !old(device)@.owns(self@) || old(device)@.next_handle == u64::MAX
                },
            },
    {
        proof {
            use_type_invariant(self);
            use_type_invariant(&*device);
        }
        if !device.owns(self) {
            return Err(DeviceError::ForeignHandle);
        }
        let bytes: usize = self.num_bytes();
        let region: u64 = match device.draw(1) {
            Some(region) => region,
            None => {
                return Err(DeviceError::HandlesExhausted);
            },
        };
        let stream: u64 = self.context.stream();
        let copy = CudaSlice {
            context: self.context,
            cu_device_ptr: region,
            len: self.len,
            host_buf: None,
        };
        let mut plan = Plan::empty();
        plan.push(DriverCall::MemAllocAsync { region, bytes, stream }, OnFailure::Surface);
        plan.push(
            DriverCall::MemcpyDtoDAsync { src: self.cu_device_ptr, dst: region, bytes, stream },
            OnFailure::Release(1),
        );
        plan.release.push(DriverCall::MemFreeAsync { region, stream });
        proof {
            assert(plan@.steps =~= copy@.duplication(self@).steps);
            assert(plan@.release =~= copy@.duplication(self@).release);
        }
        Ok((copy, plan))
    }

    /// Gives the region back, in queue order. The queue runs its requests
    /// in the order in which they were made, so everything that was asked
    /// of the region before is done by then.
    pub fn free(self) -> (plan: Plan)
        ensures
            plan@ == self@.freeing(),
    {
        let mut plan = Plan::empty();
        plan.push(
            DriverCall::MemFreeAsync {
                region: self.cu_device_ptr,
                stream: self.context.stream(),
            },
            OnFailure::Abort,
        );
        proof {
            assert(plan@.steps =~= self@.freeing().steps);
        }
        plan
    }

    /// Opens a window on the elements that `range` denotes, or gives `None`
    /// where `range` does not lie within the region or is empty.
    pub fn try_slice(&self, range: IndexRange) -> (r: Option<CudaView<'_, 'c, T>>)
        ensures
            match r {
                Some(view) => self@.window(range) == Some(view@) && view.parent() == self@,
                None => self@.window(range) is None,
            },
    {
        proof {
            use_type_invariant(self);
        }
        match range.bounds(IndexRange::to(self.len)) {
            Some((first, last)) => {
                proof {
                    lemma_offset_within(first as int, self.len as int, size_of::<T>() as int);
                }
                Some(
                    CudaView {
                        slice: self,
                        ptr: first * core::mem::size_of::<T>(),
                        start: first,
                        len: 1 + last - first,
                    },
                )
            },
            None => None,
        }
    }

    /// Opens a window on the elements that `range` denotes.
    pub fn slice(&self, range: IndexRange) -> (view: CudaView<'_, 'c, T>)
        requires
            self@.window(range) is Some,
        ensures
            self@.window(range) == Some(view@),
            view.parent() == self@,
    {
        self.try_slice(range).unwrap()
    }

    /// Opens an exclusive window on the elements that `range` denotes, or
    /// gives `None` where `range` does not lie within the region or is
    /// empty. While the window lives, the region cannot be reached otherwise.
    pub fn try_slice_mut(&mut self, range: IndexRange) -> (r: Option<CudaViewMut<'_, 'c, T>>)
        ensures
            *final(self) == *old(self),
            match r {
                Some(view) => old(self)@.window(range) == Some(view@),
                None => old(self)@.window(range) is None,
            },
    {
        proof {
            use_type_invariant(&*self);
        }
        match range.bounds(IndexRange::to(self.len)) {
            Some((first, last)) => {
                proof {
                    lemma_offset_within(first as int, self.len as int, size_of::<T>() as int);
                }
                Some(
                    CudaViewMut {
                        slice: core::marker::PhantomData,
                        region: self.cu_device_ptr,
                        ptr: first * core::mem::size_of::<T>(),
                        start: first,
                        len: 1 + last - first,
                    },
                )
            },
            None => None,
        }
    }

    /// Opens an exclusive window on the elements that `range` denotes.
    pub fn slice_mut(&mut self, range: IndexRange) -> (view: CudaViewMut<'_, 'c, T>)
        requires
            old(self)@.window(range) is Some,
        ensures
            *final(self) == *old(self),
            old(self)@.window(range) == Some(view@),
    {
        self.try_slice_mut(range).unwrap()
    }
}

impl DeviceView {
    /// Whether a region lives on this device and bears one of its handles.
    pub open spec fn owns<T>(self, slice: SliceView<T>) -> bool {
        slice.device == self.ordinal && self.names(slice.region)
    }
}

impl CudaDevice {
    /// Whether a region lives on this device and bears one of its handles.
    pub fn owns<T>(&self, slice: &CudaSlice<'_, T>) -> (r: bool)
        ensures
            r == self@.owns(slice@),
    {
        slice.context.ordinal() == self.ordinal() && self.names(slice.cu_device_ptr)
    }

    /// Reserves a region of `len` elements in `context`, in queue order.
    /// The call does not wait for the device: the region is reserved, and
    /// what it holds is unspecified until it is written.
    ///
    /// The request is refused where `context` is not the device's own,
    /// where the size of the region in bytes does not fit the address type,
    /// or where the device has no handle left.
    pub fn allocate<'c, T>(&mut self, context: &'c CudaContext, len: usize) -> (r: Result<
        (CudaSlice<'c, T>, Plan),
        DeviceError,
    >)
        ensures
            final(self)@.wf(),
            match r {
                Ok((slice, plan)) => {
                    &&& old(self)@.region_refusal::<T>(context@, len) is None
                    &&& final(self)@ == old(self)@.advanced(1)
                    &&& slice@ == old(self)@.fresh_region::<T>(len, None)
                    &&& slice@.wf()
                    &&& plan@ == slice@.allocation()
                },
                Err(e) => {
                    &&& old(self)@.region_refusal::<T>(context@, len) == Some(e)
                    &&& final(self)@ == old(self)@
                },
            },
    {
        proof {
            use_type_invariant(&*self);
        }
        if !self.governs(context) {
            return Err(DeviceError::ForeignHandle);
        }
        let bytes: usize = match len.checked_mul(core::mem::size_of::<T>()) {
            Some(bytes) => bytes,
            None => {
                return Err(DeviceError::SizeOverflow);
            },
        };
        let stream: u64 = context.stream();
        let region: u64 = match self.draw(1) {
            Some(region) => region,
            None => {
                return Err(DeviceError::HandlesExhausted);
            },
        };
        let slice = CudaSlice { context, cu_device_ptr: region, len, host_buf: None };
        let mut plan = Plan::empty();
        plan.push(DriverCall::MemAllocAsync { region, bytes, stream }, OnFailure::Surface);
        plan.release.push(DriverCall::MemFreeAsync { region, stream });
        proof {
            assert(plan@.steps =~= slice@.allocation().steps);
            assert(plan@.release =~= slice@.allocation().release);
        }
        Ok((slice, plan))
    }

    /// Reserves a region in `context` with one element for each of `host`
    /// and copies them into it, in queue order. The region keeps `host` as
    /// its mirror.
    ///
    /// The request is refused where `context` is not the device's own,
    /// where the size of the region in bytes does not fit the address type,
    /// or where the device has no handle left.
    pub fn allocate_from<'c, T>(&mut self, context: &'c CudaContext, host: Vec<T>) -> (r: Result<
        (CudaSlice<'c, T>, Plan),
        DeviceError,
    >)
        ensures
            final(self)@.wf(),
            match r {
                Ok((slice, plan)) => {
                    &&& old(self)@.region_refusal::<T>(context@, host@.len() as usize) is None
                    &&& final(self)@ == old(self)@.advanced(1)
                    &&& slice@ == old(self)@.fresh_region::<T>(host@.len() as usize, Some(host@))
                    &&& slice@.wf()
                    &&& plan@ == slice@.upload()
                },
                Err(e) => {
                    &&& old(self)@.region_refusal::<T>(context@, host@.len() as usize) == Some(e)
                    &&& final(self)@ == old(self)@
                },
            },
    {
        proof {
            use_type_invariant(&*self);
        }
        if !self.governs(context) {
            return Err(DeviceError::ForeignHandle);
        }
        let len: usize = host.len();
        let bytes: usize = match len.checked_mul(core::mem::size_of::<T>()) {
            Some(bytes) => bytes,
            None => {
                return Err(DeviceError::SizeOverflow);
            },
        };
        let stream: u64 = context.stream();
        let region: u64 = match self.draw(1) {
            Some(region) => region,
            None => {
                return Err(DeviceError::HandlesExhausted);
            },
        };
        let slice = CudaSlice { context, cu_device_ptr: region, len, host_buf: Some(host) };
        let mut plan = Plan::empty();
        plan.push(DriverCall::MemAllocAsync { region, bytes, stream }, OnFailure::Surface);
        plan.push(DriverCall::MemcpyHtoDAsync { region, bytes, stream }, OnFailure::Release(1));
        plan.release.push(DriverCall::MemFreeAsync { region, stream });
        proof {
            assert(plan@.steps =~= slice@.upload().steps);
            assert(plan@.release =~= slice@.upload().release);
        }
        Ok((slice, plan))
    }
}

impl DeviceView {
    /// Why the device cannot make a region of `len` elements in `context`,
    /// or `None` where it can.
    pub open spec fn region_refusal<T>(self, context: ContextView, len: usize) -> Option<
        DeviceError,
    > {
        if context != self.context() {
            Some(DeviceError::ForeignHandle)
        } else if len * size_of::<T>() > usize::MAX {
            Some(DeviceError::SizeOverflow)
        } else if self.next_handle == u64::MAX {
            Some(DeviceError::HandlesExhausted)
        } else {
            None
        }
    }

    /// The region that the device makes next: it bears the next handle and
    /// works on the device's queue.
    pub open spec fn fresh_region<T>(self, len: usize, host: Option<Seq<T>>) -> SliceView<T> {
        SliceView { region: self.next_handle, len, device: self.ordinal, stream: self.stream, host }
    }
}

} // verus!
