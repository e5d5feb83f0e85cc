//! Properties of the bridge's protocol that hold across several calls.

use vstd::prelude::*;
use crate::dispatch::{finish_step, Completion, DispatchTask};
use crate::envelope::{envelope_of, Fault};
use crate::error::Error;
use crate::request::{accept_outcome, Rejection};
use crate::scheduler::{initialize_step, Scheduler};

verus! {

/// A submission without an argument or without a callback is turned away,
/// so no request, and no completion, ever comes of it.
pub proof fn lemma_rejected_without_argument_or_callback(
    argument: Option<Seq<u8>>,
    has_callback: bool,
    scheduler_ready: bool,
)
    requires
        argument is None || !has_callback,
    ensures
        accept_outcome(argument, has_callback, scheduler_ready) is Err,
        argument is None ==> accept_outcome(argument, has_callback, scheduler_ready) == Err::<
            Seq<char>,
            Rejection,
        >(Rejection::NullArgument),
{
}

/// A request resolves exactly once: over any run of `finish` calls on a task
/// that starts unresolved, the first call yields the completion for its
/// outcome, with the task's token, and no later call yields another. A
/// failed unit of work resolves the request too, with a failure envelope.
pub proof fn lemma_exactly_one_completion(
    tasks: Seq<DispatchTask>,
    outcomes: Seq<Result<String, Error>>,
    completions: Seq<Option<Completion>>,
)
    requires
        outcomes.len() > 0,
        tasks.len() == outcomes.len() + 1,
        completions.len() == outcomes.len(),
        !tasks[0].spec_resolved(),
        forall|i: int|
            0 <= i < outcomes.len() ==> finish_step(
                tasks[i],
                outcomes[i],
                tasks[i + 1],
                #[trigger] completions[i],
            ),
    ensures
        completions[0] matches Some(c) && c.token == tasks[0].spec_token() && c.envelope@
            == envelope_of(outcomes[0]),
        outcomes[0] matches Err(e) ==> completions[0] matches Some(c) && c.envelope@ == Err::<
            Seq<u8>,
            Fault,
        >(Fault::Operation(e)),
        forall|i: int| 0 < i < completions.len() ==> #[trigger] completions[i] is None,
{
    assert forall|i: int| 0 < i < completions.len() implies #[trigger] completions[i] is None by {
        // The call before this one left the task resolved.
        let earlier = completions[i - 1];
        assert(tasks[i].spec_resolved());
    }
    // The first call found the task unresolved.
    let first = completions[0];
}

/// Two requests in flight at once are each answered with their own token:
/// whatever their outcomes, and in whichever order they finish, the
/// completion of each carries the token of its own submission.
pub proof fn lemma_token_fidelity(
    a: DispatchTask,
    a_outcome: Result<String, Error>,
    a_after: DispatchTask,
    a_completion: Option<Completion>,
    b: DispatchTask,
    b_outcome: Result<String, Error>,
    b_after: DispatchTask,
    b_completion: Option<Completion>,
)
    requires
        !a.spec_resolved(),
        !b.spec_resolved(),
        finish_step(a, a_outcome, a_after, a_completion),
        finish_step(b, b_outcome, b_after, b_completion),
    ensures
        a_completion matches Some(c) && c.token == a.spec_token() && c.envelope@ == envelope_of(
            a_outcome,
        ),
        b_completion matches Some(c) && c.token == b.spec_token() && c.envelope@ == envelope_of(
            b_outcome,
        ),
        a.spec_token() != b.spec_token() ==> a_completion.unwrap().token
            != b_completion.unwrap().token,
{
}

/// Initialization is idempotent: over any run of `initialize` calls, once
/// one call has succeeded every later call succeeds too, and the runtime that
/// call built is the one the scheduler keeps, so exactly one is ever made.
pub proof fn lemma_initialize_once(states: Seq<Scheduler>, results: Seq<bool>, k: int)
    requires
        states.len() == results.len() + 1,
        forall|i: int|
            0 <= i < results.len() ==> initialize_step(
                states[i],
                states[i + 1],
                #[trigger] results[i],
            ),
        0 <= k < results.len(),
        results[k],
    ensures
        forall|j: int| k <= j < results.len() ==> #[trigger] results[j],
        forall|j: int| k < j < states.len() ==> #[trigger] states[j] == states[k + 1],
    decreases results.len() - k,
{
    if k + 1 < results.len() {
        // The next call found the runtime built, so it returned `true`.
        let next = results[k + 1];
        lemma_initialize_once(states, results, k + 1);
    }
}

} // verus!
