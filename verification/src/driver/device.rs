//! The device handle: the root of every resource, its registry of loaded
//! modules, and the order in which it is brought up and torn down.

use vstd::prelude::*;
use crate::driver::call::DriverCall;
use crate::driver::error::DeviceError;
use crate::driver::plan::{OnFailure, Plan, PlanView, Step};
use crate::driver::registry::{
    find_function,
    find_module,
    guard_modules,
    held,
    lock_get_mut,
    lock_new,
    lock_read,
    module_of,
    resolve_function,
    CudaModule,
    FunctionEntry,
};

verus! {

/// A function of a loaded module, ready to be launched on its device.
#[derive(Clone, Copy, Debug, PartialEq, Eq, Structural)]
pub struct CudaFunction {
    pub cu_function: u64,
    /// The index of the device that the function was loaded on.
    pub device: usize,
}

/// The execution context of a device: what every region and every queue of
/// the device lives in.
///
/// A context is made together with its device and is never cloned. Regions
/// and queues borrow it, and tearing the device down takes it by value:
/// nothing that lives in a context can outlive it.
#[derive(Debug)]
pub struct CudaContext {
    ordinal: usize,
    stream: u64,
}

/// The mathematical content of a [`CudaContext`].
pub struct ContextView {
    /// The index of the device.
    pub ordinal: usize,
    /// The queue that all work runs on unless a forked queue is named;
    /// `0` is the driver's own default queue.
    pub stream: u64,
}

impl View for CudaContext {
    type V = ContextView;

    closed spec fn view(&self) -> ContextView {
        ContextView { ordinal: self.ordinal, stream: self.stream }
    }
}

impl CudaContext {
    /// The index of the device.
    pub fn ordinal(&self) -> (r: usize)
        ensures
            r == self@.ordinal,
    {
        self.ordinal
    }

    /// The queue that the device works on; `0` is the driver's default queue.
    pub fn stream(&self) -> (r: u64)
        ensures
            r == self@.stream,
    {
        self.stream
    }
}

/// One accelerator: its index, its work queue, the handles it has drawn and
/// the modules loaded on it.
///
/// A device is never cloned. It names what is made in its context, and it
/// is torn down only when its context is handed in again.
#[derive(Debug)]
pub struct CudaDevice {
    ordinal: usize,
    stream: u64,
    next_handle: u64,
    modules: spin::RwLock<Vec<CudaModule>>,
}

/// The mathematical content of a [`CudaDevice`].
pub struct DeviceView {
    /// The index of the device.
    pub ordinal: usize,
    /// The queue that all work runs on unless a forked queue is named;
    /// `0` is the driver's own default queue.
    pub stream: u64,
    /// The least handle that names nothing yet.
    pub next_handle: u64,
    /// The registered modules, in the order of their registration.
    pub modules: Seq<CudaModule>,
}

impl DeviceView {
    /// What holds of every device.
    pub open spec fn wf(self) -> bool {
        &&& self.ordinal <= i32::MAX
        &&& self.stream < self.next_handle
    }

    /// Whether the device has drawn `handle`.
    pub open spec fn names(self, handle: u64) -> bool {
        handle < self.next_handle
    }

    /// The context that was made together with the device.
    pub open spec fn context(self) -> ContextView {
        ContextView { ordinal: self.ordinal, stream: self.stream }
    }

    /// The device after it has drawn `count` more handles.
    pub open spec fn advanced(self, count: int) -> DeviceView {
        DeviceView { next_handle: (self.next_handle + count) as u64, ..self }
    }

    /// The requests that bring the device up: the driver is initialised,
    /// the device found, its context retained and made current, and the
    /// event created. The failure of any of them is reported; where the
    /// context cannot be made current or the event cannot be created, the
    /// context is released first, so that nothing of the device is left.
    pub open spec fn bring_up(self) -> PlanView {
        PlanView {
            steps: seq![
                Step { call: DriverCall::Init, on_failure: OnFailure::Surface },
                Step {
                    call: DriverCall::DeviceGet { ordinal: self.ordinal as i32 },
                    on_failure: OnFailure::Surface,
                },
                Step { call: DriverCall::PrimaryCtxRetain, on_failure: OnFailure::Surface },
                Step { call: DriverCall::CtxSetCurrent, on_failure: OnFailure::Release(1) },
                Step { call: DriverCall::EventCreate, on_failure: OnFailure::Release(1) },
            ],
            release: seq![DriverCall::EventDestroy, DriverCall::PrimaryCtxRelease],
        }
    }

    /// The requests that unload the registered modules, oldest first.
    pub open spec fn unloads(self) -> Seq<DriverCall> {
        Seq::new(
            self.modules.len(),
            |i: int| DriverCall::ModuleUnload { module: self.modules[i].cu_module },
        )
    }

    /// The requests that tear the device down: the modules first, then the
    /// work queue if the device owns one, then the event, and the context
    /// last, because releasing it earlier would invalidate the others.
    pub open spec fn teardown_calls(self) -> Seq<DriverCall> {
        self.unloads() + (if self.stream != 0 {
            seq![DriverCall::StreamDestroy { stream: self.stream }]
        } else {
            Seq::empty()
        }) + seq![DriverCall::EventDestroy, DriverCall::PrimaryCtxRelease]
    }
}

/// The requests that load a module named by handle `module` and resolve
/// `functions` functions from it, named by the handles that follow.
pub open spec fn load_plan(module: u64, functions: nat) -> PlanView {
    PlanView {
        steps: seq![
            Step { call: DriverCall::ModuleLoad { module }, on_failure: OnFailure::Surface },
        ] + Seq::new(
            functions,
            |i: int|
                Step {
                    call: DriverCall::ModuleGetFunction {
                        module,
                        function: (module + 1 + i) as u64,
                    },
                    on_failure: OnFailure::Release(1),
                },
        ),
        release: seq![DriverCall::ModuleUnload { module }],
    }
}

impl View for CudaDevice {
    type V = DeviceView;

    closed spec fn view(&self) -> DeviceView {
        DeviceView {
            ordinal: self.ordinal,
            stream: self.stream,
            next_handle: self.next_handle,
            modules: held(self.modules),
        }
    }
}

impl CudaDevice {
    #[verifier::type_invariant]
    pub open spec fn well_formed(&self) -> bool {
        self@.wf()
    }

    /// A handle for the device with index `ordinal`, its context, and the
    /// requests that bring the device up.
    ///
    /// The device works on the driver's default queue and has no module
    /// loaded. An index that the driver cannot express is refused.
    pub fn new(ordinal: usize) -> (r: Result<(CudaDevice, CudaContext, Plan), DeviceError>)
        ensures
            match r {
                Ok((device, context, plan)) => {
                    &&& ordinal <= i32::MAX
                    &&& device@ == (DeviceView {
                        ordinal,
                        stream: 0,
                        next_handle: 1,
                        modules: Seq::empty(),
                    })
                    &&& context@ == device@.context()
                    &&& plan@ == device@.bring_up()
                },
                Err(e) => ordinal > i32::MAX && e == DeviceError::InvalidOrdinal,
            },
    {
        if ordinal > i32::MAX as usize {
            return Err(DeviceError::InvalidOrdinal);
        }
        let device = CudaDevice {
            ordinal,
            stream: 0,
            next_handle: 1,
            modules: lock_new(Vec::new()),
        };
        let context = CudaContext { ordinal, stream: 0 };
        let mut plan = Plan::empty();
        plan.push(DriverCall::Init, OnFailure::Surface);
        plan.push(DriverCall::DeviceGet { ordinal: ordinal as i32 }, OnFailure::Surface);
        plan.push(DriverCall::PrimaryCtxRetain, OnFailure::Surface);
        plan.push(DriverCall::CtxSetCurrent, OnFailure::Release(1));
        plan.push(DriverCall::EventCreate, OnFailure::Release(1));
        plan.release.push(DriverCall::EventDestroy);
        plan.release.push(DriverCall::PrimaryCtxRelease);
        proof {
            assert(plan@.steps =~= device@.bring_up().steps);
            assert(plan@.release =~= device@.bring_up().release);
        }
        Ok((device, context, plan))
    }

    /// Whether `context` is the one that was made together with the device.
    pub fn governs(&self, context: &CudaContext) -> (r: bool)
        ensures
            r == (context@ == self@.context()),
    {
        context.ordinal == self.ordinal && context.stream == self.stream
    }

    /// The index of the device.
    pub fn ordinal(&self) -> (r: usize)
        ensures
            r == self@.ordinal,
            self@.wf(),
    {
        proof {
            use_type_invariant(self);
        }
        self.ordinal
    }

    /// The queue that the device works on; `0` is the driver's default queue.
    pub fn stream(&self) -> (r: u64)
        ensures
            r == self@.stream,
            self@.wf(),
    {
        proof {
            use_type_invariant(self);
        }
        self.stream
    }

    /// Whether a module is registered under `name`.
    pub fn has_module(&self, name: &str) -> (r: bool)
        ensures
            r == (module_of(self@.modules, name@) is Some),
    {
        let guard = lock_read(&self.modules);
        let modules = guard_modules(&guard);
        let key: String = name.to_owned();
        find_module(modules, &key).is_some()
    }

    /// The function `function` of the module registered under `module`, or
    /// `None` where either name is unknown. Nothing is asked of the driver:
    /// the handle is the one that was drawn when the module was loaded.
    pub fn get_function(&self, module: &str, function: &str) -> (r: Option<CudaFunction>)
        ensures
            r == match resolve_function(self@.modules, module@, function@) {
                Some(handle) => Some(CudaFunction { cu_function: handle, device: self@.ordinal }),
                None => None,
            },
    {
        let guard = lock_read(&self.modules);
        let modules = guard_modules(&guard);
        let module_key: String = module.to_owned();
        let function_key: String = function.to_owned();
        match find_module(modules, &module_key) {
            Some(i) => match find_function(&modules[i].functions, &function_key) {
                Some(handle) => Some(CudaFunction { cu_function: handle, device: self.ordinal }),
                None => None,
            },
            None => None,
        }
    }

    /// Prepares the loading of a module under `name`, with the listed
    /// functions resolved from it.
    ///
    /// Where a module is already registered under `name`, nothing is to be
    /// done and the result is `Ok(None)`. Otherwise the module gets a fresh
    /// handle, each function the next one in turn, and the result holds the
    /// module that [`CudaDevice::register_module`] takes once the driver has
    /// carried the plan out.
    pub fn load_module(&mut self, name: &str, functions: &Vec<String>) -> (r: Result<
        Option<(CudaModule, Plan)>,
        DeviceError,
    >)
        ensures
            final(self)@.wf(),
            match r {
                Ok(None) => {
                    &&& module_of(old(self)@.modules, name@) is Some
                    &&& final(self)@ == old(self)@
                },
                Ok(Some((module, plan))) => {
                    &&& module_of(old(self)@.modules, name@) is None
                    &&& old(self)@.next_handle + functions@.len() + 1 <= u64::MAX
                    &&& final(self)@ == old(self)@.advanced(functions@.len() as int + 1)
                    &&& module.name@ == name@
                    &&& module.cu_module == old(self)@.next_handle
                    &&& module.functions@.len() == functions@.len()
                    &&& forall|i: int|
                        0 <= i < functions@.len() ==> {
                            &&& (#[trigger] module.functions@[i]).name@ == functions@[i]@
                            &&& module.functions@[i].cu_function == module.cu_module + 1 + i
                        }
                    &&& plan@ == load_plan(module.cu_module, functions@.len())
                },
                Err(e) => {
                    &&& module_of(old(self)@.modules, name@) is None
                    &&& old(self)@.next_handle + functions@.len() + 1 > u64::MAX
                    &&& e == DeviceError::HandlesExhausted
                    &&& final(self)@ == old(self)@
                },
            },
    {
        proof {
            use_type_invariant(&*self);
        }
        if self.has_module(name) {
            return Ok(None);
        }
        let count: u64 = match (functions.len() as u64).checked_add(1) {
            Some(count) => count,
            None => {
                return Err(DeviceError::HandlesExhausted);
            },
        };
        let first: u64 = match self.draw(count) {
            Some(first) => first,
            None => {
                return Err(DeviceError::HandlesExhausted);
            },
        };
        let mut entries: Vec<FunctionEntry> = Vec::new();
        let mut steps: Vec<Step> = Vec::new();
        steps.push(
            Step { call: DriverCall::ModuleLoad { module: first }, on_failure: OnFailure::Surface },
        );
        let mut i: usize = 0;
        while i < functions.len()
            invariant
                i <= functions.len(),
                first + functions.len() + 1 <= u64::MAX,
                entries@.len() == i,
                forall|k: int|
                    0 <= k < i ==> {
                        &&& (#[trigger] entries@[k]).name@ == functions@[k]@
                        &&& entries@[k].cu_function == first + 1 + k
                    },
                steps@ =~= load_plan(first, i as nat).steps,
            decreases functions.len() - i,
        {
            let handle: u64 = first + 1 + i as u64;
            entries.push(FunctionEntry { name: functions[i].clone(), cu_function: handle });
            steps.push(
                Step {
                    call: DriverCall::ModuleGetFunction { module: first, function: handle },
                    on_failure: OnFailure::Release(1),
                },
            );
            i += 1;
        }
        let mut release: Vec<DriverCall> = Vec::new();
        release.push(DriverCall::ModuleUnload { module: first });
        let module = CudaModule { name: name.to_owned(), cu_module: first, functions: entries };
        let plan = Plan { steps, release };
        proof {
            assert(plan@.release =~= load_plan(first, functions@.len()).release);
        }
        Ok(Some((module, plan)))
    }

    /// Registers a module that the driver has loaded. A module that is
    /// already registered under the same name stays, and the result says
    /// whether the new one was taken.
    pub fn register_module(&mut self, module: CudaModule) -> (added: bool)
        ensures
            final(self)@.wf(),
            added == (module_of(old(self)@.modules, module.name@) is None),
            final(self)@ == if added {
                DeviceView { modules: old(self)@.modules.push(module), ..old(self)@ }
            } else {
                old(self)@
            },
            module_of(final(self)@.modules, module.name@) == if added {
                Some(module)
            } else {
                module_of(old(self)@.modules, module.name@)
            },
    {
        proof {
            use_type_invariant(&*self);
        }
        let modules = lock_get_mut(&mut self.modules);
        if find_module(modules, &module.name).is_some() {
            false
        } else {
            proof {
                assert(modules@.push(module).drop_last() =~= modules@);
            }
            modules.push(module);
            true
        }
    }

    /// Gives the device and its context up and says how to tear them down:
    /// every registered module is unloaded, then the work queue is
    /// destroyed if the device owns one, then the event, and at last the
    /// context is released. A failure of any of these requests is fatal.
    ///
    /// The context is taken by value, so whatever borrows it has come to
    /// its end by now. A context of another device is refused, and both
    /// are handed back.
    pub fn teardown(self, context: CudaContext) -> (r: Result<Plan, (CudaDevice, CudaContext)>)
        ensures
            match r {
                Ok(plan) => {
                    &&& context@ == self@.context()
                    &&& plan@ == PlanView::uniform(self@.teardown_calls(), OnFailure::Abort)
                },
                Err((device, returned)) => {
                    &&& context@ != self@.context()
                    &&& device == self
                    &&& returned == context
                },
            },
    {
        proof {
            use_type_invariant(&self);
        }
        if !self.governs(&context) {
            return Err((self, context));
        }
        let mut device = self;
        let stream: u64 = device.stream;
        let modules = lock_get_mut(&mut device.modules);
        let mut plan = Plan::empty();
        let mut i: usize = 0;
        while i < modules.len()
            invariant
                i <= modules.len(),
                modules@ == self@.modules,
                plan@.release == Seq::<DriverCall>::empty(),
                plan@.steps =~= Seq::new(
                    i as nat,
                    |k: int|
                        Step {
                            call: DriverCall::ModuleUnload { module: self@.modules[k].cu_module },
                            on_failure: OnFailure::Abort,
                        },
                ),
            decreases modules.len() - i,
        {
            plan.push(DriverCall::ModuleUnload { module: modules[i].cu_module }, OnFailure::Abort);
            i += 1;
        }
        modules.clear();
        if stream != 0 {
            plan.push(DriverCall::StreamDestroy { stream }, OnFailure::Abort);
        }
        plan.push(DriverCall::EventDestroy, OnFailure::Abort);
        plan.push(DriverCall::PrimaryCtxRelease, OnFailure::Abort);
        proof {
            assert(plan@.steps =~= PlanView::uniform(
                self@.teardown_calls(),
                OnFailure::Abort,
            ).steps);
        }
        Ok(plan)
    }

    /// Whether the device has drawn `handle`.
    pub fn names(&self, handle: u64) -> (r: bool)
        ensures
            r == self@.names(handle),
    {
        handle < self.next_handle
    }

    /// Whether the device has `count` handles left.
    pub fn has_handles(&self, count: u64) -> (r: bool)
        ensures
            r == (self@.next_handle + count <= u64::MAX),
    {
        self.next_handle <= u64::MAX - count
    }

    /// Draws `count` fresh handles and gives the first of them, or `None`
    /// where fewer are left.
    pub fn draw(&mut self, count: u64) -> (r: Option<u64>)
        ensures
            final(self)@.wf(),
            match r {
                Some(first) => {
                    &&& first == old(self)@.next_handle
                    &&& first + count <= u64::MAX
                    &&& final(self)@ == old(self)@.advanced(count as int)
                },
                None => old(self)@.next_handle + count > u64::MAX && final(self)@ == old(self)@,
            },
    {
        proof {
            use_type_invariant(&*self);
        }
        match self.next_handle.checked_add(count) {
            Some(next) => {
                let first: u64 = self.next_handle;
                self.next_handle = next;
                Some(first)
            },
            None => None,
        }
    }
}

} // verus!
