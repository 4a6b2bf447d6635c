//! The registry of loaded modules, kept behind a reader/writer lock.

use vstd::prelude::*;

verus! {

/// One function of a loaded module.
#[derive(Clone, Debug, PartialEq, Eq)]
pub struct FunctionEntry {
    pub name: String,
    pub cu_function: u64,
}

/// A loaded module and the functions that were resolved from it.
#[derive(Clone, Debug, PartialEq, Eq)]
pub struct CudaModule {
    pub name: String,
    pub cu_module: u64,
    pub functions: Vec<FunctionEntry>,
}

/// The handle under which `functions` holds `name`. Where the name occurs
/// more than once, the entry that was added last counts.
pub open spec fn function_of(functions: Seq<FunctionEntry>, name: Seq<char>) -> Option<u64>
    decreases functions.len(),
{
    if functions.len() == 0 {
        None
    } else if functions.last().name@ == name {
        Some(functions.last().cu_function)
    } else {
        function_of(functions.drop_last(), name)
    }
}

/// The module that `modules` holds under `name`. Where the name occurs more
/// than once, the entry that was added last counts.
pub open spec fn module_of(modules: Seq<CudaModule>, name: Seq<char>) -> Option<CudaModule>
    decreases modules.len(),
{
    if modules.len() == 0 {
        None
    } else if modules.last().name@ == name {
        Some(modules.last())
    } else {
        module_of(modules.drop_last(), name)
    }
}

/// The handle of function `function` of module `module`, if both are known.
pub open spec fn resolve_function(
    modules: Seq<CudaModule>,
    module: Seq<char>,
    function: Seq<char>,
) -> Option<u64> {
    match module_of(modules, module) {
        Some(m) => function_of(m.functions@, function),
        None => None,
    }
}

/// Looks `name` up among the functions of one module.
pub fn find_function(functions: &Vec<FunctionEntry>, name: &String) -> (r: Option<u64>)
    ensures
        r == function_of(functions@, name@),
{
    let mut found: Option<u64> = None;
    let mut i: usize = 0;
    while i < functions.len()
        invariant
            i <= functions.len(),
            found == function_of(functions@.take(i as int), name@),
        decreases functions.len() - i,
    {
        proof {
            assert(functions@.take(i + 1).drop_last() =~= functions@.take(i as int));
        }
        if functions[i].name == *name {
            found = Some(functions[i].cu_function);
        }
        i += 1;
    }
    proof {
        assert(functions@.take(i as int) =~= functions@);
    }
    found
}

/// Looks `name` up among the modules and gives the position of its entry.
pub fn find_module(modules: &Vec<CudaModule>, name: &String) -> (r: Option<usize>)
    ensures
        match r {
            Some(i) => i < modules.len() && module_of(modules@, name@) == Some(modules[i as int]),
            None => module_of(modules@, name@) is None,
        },
{
    let mut found: Option<usize> = None;
    let mut i: usize = 0;
    while i < modules.len()
        invariant
            i <= modules.len(),
            match found {
                Some(k) => k < i && module_of(modules@.take(i as int), name@) == Some(
                    modules[k as int],
                ),
                None => module_of(modules@.take(i as int), name@) is None,
            },
        decreases modules.len() - i,
    {
        proof {
            assert(modules@.take(i + 1).drop_last() =~= modules@.take(i as int));
        }
        if modules[i].name == *name {
            found = Some(i);
        }
        i += 1;
    }
    proof {
        assert(modules@.take(i as int) =~= modules@);
    }
    found
}

/// `spin::rwlock::RwLock`, the lock that keeps the registry. Nothing is
/// known of what is inside it but through the functions below.
#[verifier::external_type_specification]
#[verifier::external_body]
#[verifier::reject_recursive_types(T)]
#[verifier::reject_recursive_types(R)]
pub struct ExRwLock<T: ?Sized, R>(spin::rwlock::RwLock<T, R>);

/// `spin::relax::Spin`, the way in which the lock waits: it stands in the
/// lock's type and is never looked at.
#[verifier::external_type_specification]
#[verifier::external_body]
pub struct ExSpin(spin::relax::Spin);

/// `spin::rwlock::RwLockReadGuard`, the shared access that a lock hands out.
#[verifier::external_type_specification]
#[verifier::external_body]
#[verifier::reject_recursive_types(T)]
pub struct ExRwLockReadGuard<'a, T: ?Sized>(spin::rwlock::RwLockReadGuard<'a, T>);

/// The modules that a `spin::RwLock` protects: what `RwLock::new` was given,
/// and since then what was left behind the reference of `RwLock::get_mut`.
/// The library writes through no other door, so a shared reference to the
/// lock finds them unchanged.
pub uninterp spec fn held(lock: spin::RwLock<Vec<CudaModule>>) -> Seq<CudaModule>;

/// The modules that a `spin::RwLockReadGuard` gives access to: those that
/// the lock protected when `RwLock::read` made the guard.
pub uninterp spec fn guarded(guard: spin::RwLockReadGuard<'_, Vec<CudaModule>>) -> Seq<CudaModule>;

/// `spin::RwLock::new`: a lock that protects exactly the modules it was made with.
#[verifier::external_body]
pub(crate) fn lock_new(modules: Vec<CudaModule>) -> (lock: spin::RwLock<Vec<CudaModule>>)
    ensures
        held(lock) == modules@,
{
    spin::RwLock::new(modules)
}

/// `spin::RwLock::read`: shared access to the modules that the lock protects.
///
/// The call spins while a writer holds the lock and panics when the count
/// of readers overflows. The library takes no write guard and keeps no read
/// guard beyond the function that asked for it, so neither happens here.
#[verifier::external_body]
pub(crate) fn lock_read(lock: &spin::RwLock<Vec<CudaModule>>) -> (guard: spin::RwLockReadGuard<
    '_,
    Vec<CudaModule>,
>)
    ensures
        guarded(guard) == held(*lock),
{
    lock.read()
}

/// `Deref::deref` of `spin::RwLockReadGuard`: the modules behind the guard.
#[verifier::external_body]
pub(crate) fn guard_modules<'a>(guard: &'a spin::RwLockReadGuard<'_, Vec<CudaModule>>) -> (modules:
    &'a Vec<CudaModule>)
    ensures
        modules@ == guarded(*guard),
{
    core::ops::Deref::deref(guard)
}

/// `spin::RwLock::get_mut`: exclusive access to the modules that the lock
/// protects; what the caller leaves behind the reference is what the lock
/// protects afterwards. The call takes no lock and cannot panic.
#[verifier::external_body]
pub(crate) fn lock_get_mut(lock: &mut spin::RwLock<Vec<CudaModule>>) -> (modules: &mut Vec<
    CudaModule,
>)
    ensures
        modules@ == held(*old(lock)),
        held(*final(lock)) == final(modules)@,
    no_unwind
{
    lock.get_mut()
}

} // verus!
