use vstd::prelude::*;
use tokio::runtime::Runtime;

verus! {

#[verifier::external_type_specification]
#[verifier::external_body]
pub struct ExRuntime(tokio::runtime::Runtime);

/// Relies on `tokio::runtime::Runtime::new`: builds a multi-thread runtime
/// with its drivers enabled. Building can fail for want of resources, so
/// nothing is promised of the outcome.
#[verifier::external_body]
fn build_runtime() -> (r: Option<Runtime>) {
    Runtime::new().ok()
}

/// The shared task scheduler: empty until it is first initialized, then
/// holding one multi-thread runtime for as long as it lives.
pub struct Scheduler {
    runtime: Option<Runtime>,
}

/// What one call of `Scheduler::initialize` does: on a built scheduler it
/// succeeds and changes nothing, so no second runtime is ever made; on an
/// empty one it reports whether a runtime now stands.
pub open spec fn initialize_step(before: Scheduler, after: Scheduler, r: bool) -> bool {
    &&& r == after.is_ready()
    &&& before.is_ready() ==> after == before
}

impl Scheduler {
    /// Whether a runtime has been built.
    pub closed spec fn is_ready(&self) -> bool {
        self.runtime is Some
    }

    /// The runtime that a built scheduler holds.
    pub closed spec fn spec_runtime(&self) -> Option<Runtime> {
        self.runtime
    }

    /// A scheduler with no runtime yet.
    pub fn new() -> (r: Scheduler)
        ensures
            !r.is_ready(),
    {
        Scheduler { runtime: None }
    }

    /// Builds the runtime if none stands yet. Returns whether the scheduler
    /// can serve requests; once it can, every later call returns `true` and
    /// keeps the runtime that is there.
    pub fn initialize(&mut self) -> (r: bool)
        ensures
            initialize_step(*old(self), *final(self), r),
    {
        if self.runtime.is_some() {
            return true;
        }
        let built = build_runtime();
        self.install(built)
    }

    /// Takes the outcome of building a runtime: `None` where building
    /// failed. A scheduler that already holds a runtime keeps it and returns
    /// `true`; an empty one takes `built` and returns whether it holds one now.
    pub fn install(&mut self, built: Option<Runtime>) -> (r: bool)
        ensures
            initialize_step(*old(self), *final(self), r),
            !old(self).is_ready() ==> final(self).spec_runtime() == built,
            r == (old(self).is_ready() || built is Some),
    {
        if self.runtime.is_some() {
            return true;
        }
        self.runtime = built;
        self.runtime.is_some()
    }

    /// Whether the scheduler can serve requests.
    pub fn ready(&self) -> (r: bool)
        ensures
            r == self.is_ready(),
    {
        self.runtime.is_some()
    }

    /// The runtime that tasks are spawned on, once it is built.
    pub fn runtime(&self) -> (r: Option<&Runtime>)
        ensures
            (r is Some) == self.is_ready(),
            r matches Some(rt) ==> self.spec_runtime() == Some(*rt),
    {
        match &self.runtime {
            Some(rt) => Some(rt),
            None => None,
        }
    }
}

} // verus!
