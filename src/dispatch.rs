use vstd::prelude::*;
use crate::envelope::{envelope_of, Envelope};
use crate::error::Error;
use crate::request::Request;

verus! {

/// What the caller's callback is invoked with when a request resolves: the
/// envelope for its outcome and the completion token of its submission.
#[derive(Debug)]
pub struct Completion {
    pub envelope: Envelope,
    pub token: usize,
}

/// The state of one in-flight request, from its acceptance to the single
/// completion that resolves it.
#[derive(Debug)]
pub struct DispatchTask {
    token: usize,
    resolved: bool,
}

/// What one call of `DispatchTask::finish` with `outcome` does: the task
/// keeps its token and ends resolved; a task that was not yet resolved yields
/// the completion for `outcome` with its token, and one that was yields none.
pub open spec fn finish_step(
    before: DispatchTask,
    outcome: Result<String, Error>,
    after: DispatchTask,
    r: Option<Completion>,
) -> bool {
    &&& after.spec_token() == before.spec_token()
    &&& after.spec_resolved()
    &&& before.spec_resolved() ==> r is None
    &&& !before.spec_resolved() ==> (r matches Some(c) && c.token == before.spec_token()
        && c.envelope@ == envelope_of(outcome))
}

impl DispatchTask {
    /// The completion token that the task hands back.
    pub closed spec fn spec_token(&self) -> usize {
        self.token
    }

    /// Whether the task has already produced its completion.
    pub closed spec fn spec_resolved(&self) -> bool {
        self.resolved
    }

    /// A task for an accepted request, not yet resolved.
    pub fn new(request: &Request) -> (r: DispatchTask)
        ensures
            r.spec_token() == request.token,
            !r.spec_resolved(),
    {
        DispatchTask { token: request.token, resolved: false }
    }

    /// The completion token that the task hands back.
    pub fn token(&self) -> (r: usize)
        ensures
            r == self.spec_token(),
    {
        self.token
    }

    /// Whether the task has already produced its completion.
    pub fn is_resolved(&self) -> (r: bool)
        ensures
            r == self.spec_resolved(),
    {
        self.resolved
    }

    /// Takes the outcome of the unit of work. The first call, whatever the
    /// outcome, yields the one completion of the request: its envelope and
    /// the request's token. Every later call yields nothing.
    pub fn finish(&mut self, outcome: Result<String, Error>) -> (r: Option<Completion>)
        ensures
            finish_step(*old(self), outcome, *final(self), r),
    {
        if self.resolved {
            None
        } else {
            self.resolved = true;
            let envelope = Envelope::from_outcome(outcome);
            Some(Completion { envelope, token: self.token })
        }
    }
}

} // verus!
