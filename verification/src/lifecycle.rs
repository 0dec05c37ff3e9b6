//! Driver load and unload: ordered acquisition with rollback.
//!
//! At load the driver acquires four resources in a fixed order: the named
//! device object, the symbolic link to it, the filter-framework
//! registration, and active filtering.  Each successful step pushes a
//! release token onto a cleanup stack; when a later step fails, exactly
//! the tokens pushed so far are released, newest first, and the failure is
//! reported.  The kernel calls that create and destroy the real resources
//! stay outside this library: it is handed each step's outcome and decides
//! what is held, what is released, and in what order.

use vstd::prelude::*;

use crate::registry::ProtectedNameRegistry;

verus! {

/// One of the four lifecycle resources, in their acquisition order.
#[derive(Clone, Copy, Debug, PartialEq, Eq, Structural)]
pub enum Resource {
    Device,
    SymLink,
    FilterRegistration,
    Filtering,
}

/// The fixed order in which the four resources are acquired.
pub open spec fn acquisition_order() -> Seq<Resource> {
    seq![
        Resource::Device,
        Resource::SymLink,
        Resource::FilterRegistration,
        Resource::Filtering,
    ]
}

/// A stack of release tokens: each successfully acquired resource is
/// pushed, and rollback or unload releases them newest first.
pub struct Cleaner {
    held: Vec<Resource>,
}

impl Cleaner {
    /// The resources currently held, in acquisition order.
    pub closed spec fn view(&self) -> Seq<Resource> {
        self.held@
    }

    /// A cleaner holding nothing.
    pub fn new() -> (r: Cleaner)
        ensures
            r@ =~= Seq::<Resource>::empty(),
    {
        Cleaner { held: Vec::new() }
    }

    /// Number of resources currently held.
    pub fn len(&self) -> (n: usize)
        ensures
            n == self@.len(),
    {
        self.held.len()
    }

    /// The held resource at position `i`, oldest first.
    pub fn resource_at(&self, i: usize) -> (r: Resource)
        requires
            i < self@.len(),
        ensures
            r == self@[i as int],
    {
        self.held[i]
    }

    /// Record one successful acquisition.
    pub fn push(&mut self, r: Resource)
        ensures
            final(self)@ =~= old(self)@.push(r),
    {
        self.held.push(r);
    }

    /// Release everything held, newest first, and report the release
    /// order.  A second call releases nothing: teardown is idempotent.
    pub fn clean(&mut self) -> (released: Vec<Resource>)
        ensures
            released@ =~= old(self)@.reverse(),
            final(self)@ =~= Seq::<Resource>::empty(),
    {
        let mut released: Vec<Resource> = Vec::new();
        while self.held.len() > 0
            invariant
                self@ + released@.reverse() =~= old(self)@,
            decreases self@.len(),
        {
            match self.held.pop() {
                Some(r) => {
                    released.push(r);
                },
                None => {},
            }
        }
        proof {
            assert(released@.reverse() =~= old(self)@);
            assert(released@.reverse().reverse() =~= released@);
        }
        released
    }
}

/// The outcome of each step a load attempt would take: whether reserving
/// the registry's backing storage succeeds, then one flag per acquisition
/// step.  The surrounding driver fills this in from the kernel's status
/// codes as the steps are attempted.
#[derive(Clone, Copy, Debug, PartialEq, Eq, Structural)]
pub struct LoadOutcomes {
    pub registry_reserve_ok: bool,
    pub device_ok: bool,
    pub symlink_ok: bool,
    pub registration_ok: bool,
    pub filtering_ok: bool,
}

/// Why a load attempt failed.
#[derive(Clone, Copy, Debug, PartialEq, Eq, Structural)]
pub enum LoadError {
    /// The registry's backing storage could not be reserved; the driver
    /// refuses to start.
    InsufficientResources,
    /// The named acquisition step failed.
    StepFailed(Resource),
}

/// The state a successfully loaded driver holds: the empty registry and
/// the four acquired resources.
pub struct DriverState {
    pub registry: ProtectedNameRegistry,
    pub resources: Cleaner,
}

/// What a load attempt reports: the driver state or the failure, plus the
/// audit log of every resource released during rollback, in release
/// order.
pub struct LoadReport {
    pub outcome: Result<DriverState, LoadError>,
    pub released: Vec<Resource>,
}

/// How many acquisition steps succeed before the first failing one; all
/// four when none fails.
pub open spec fn steps_until_failure(o: LoadOutcomes) -> int {
    if !o.device_ok {
        0
    } else if !o.symlink_ok {
        1
    } else if !o.registration_ok {
        2
    } else if !o.filtering_ok {
        3
    } else {
        4
    }
}

/// Run the ordered load sequence against the given step outcomes.
///
/// On full success the report holds a driver state with an empty registry
/// and all four resources, and nothing was released.  On a failing
/// acquisition step, exactly the resources acquired before it are
/// released, newest first, and the failing step is named.  A failed
/// registry reservation aborts the load before any resource is touched.
pub fn load(outcomes: &LoadOutcomes) -> (report: LoadReport)
    ensures
        !outcomes.registry_reserve_ok ==> {
            &&& report.outcome == Err::<DriverState, LoadError>(LoadError::InsufficientResources)
            &&& report.released@.len() == 0
        },
        outcomes.registry_reserve_ok && steps_until_failure(*outcomes) == 4 ==> {
            &&& report.outcome is Ok
            &&& report.outcome->Ok_0.resources@ =~= acquisition_order()
            &&& report.outcome->Ok_0.registry@.len() == 0
            &&& report.released@.len() == 0
        },
        outcomes.registry_reserve_ok && steps_until_failure(*outcomes) < 4 ==> {
            &&& report.outcome == Err::<DriverState, LoadError>(
                LoadError::StepFailed(acquisition_order()[steps_until_failure(*outcomes)]),
            )
            &&& report.released@ =~= acquisition_order().subrange(
                0,
                steps_until_failure(*outcomes),
            ).reverse()
        },
{
    if !outcomes.registry_reserve_ok {
        return LoadReport { outcome: Err(LoadError::InsufficientResources), released: Vec::new() };
    }
    let registry = ProtectedNameRegistry::new();
    let mut cleaner = Cleaner::new();

    if !outcomes.device_ok {
        assert(cleaner@ =~= acquisition_order().subrange(0, 0));
        let released = cleaner.clean();
        return LoadReport {
            outcome: Err(LoadError::StepFailed(Resource::Device)),
            released,
        };
    }
    cleaner.push(Resource::Device);

    if !outcomes.symlink_ok {
        assert(cleaner@ =~= acquisition_order().subrange(0, 1));
        let released = cleaner.clean();
        return LoadReport {
            outcome: Err(LoadError::StepFailed(Resource::SymLink)),
            released,
        };
    }
    cleaner.push(Resource::SymLink);

    if !outcomes.registration_ok {
        assert(cleaner@ =~= acquisition_order().subrange(0, 2));
        let released = cleaner.clean();
        return LoadReport {
            outcome: Err(LoadError::StepFailed(Resource::FilterRegistration)),
            released,
        };
    }
    cleaner.push(Resource::FilterRegistration);

    if !outcomes.filtering_ok {
        assert(cleaner@ =~= acquisition_order().subrange(0, 3));
        let released = cleaner.clean();
        return LoadReport {
            outcome: Err(LoadError::StepFailed(Resource::Filtering)),
            released,
        };
    }
    cleaner.push(Resource::Filtering);

    assert(cleaner@ =~= acquisition_order());
    LoadReport { outcome: Ok(DriverState { registry, resources: cleaner }), released: Vec::new() }
}

/// Unload the driver: release every held resource, newest first, and drop
/// the registry's contents.  Safe to run however much of the load had
/// completed, and a second run releases nothing.
pub fn unload(state: &mut DriverState) -> (released: Vec<Resource>)
    ensures
        released@ =~= old(state).resources@.reverse(),
        final(state).resources@ =~= Seq::<Resource>::empty(),
        final(state).registry@.len() == 0,
{
    state.registry.clear();
    state.resources.clean()
}

} // verus!
