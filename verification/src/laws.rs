//! The bridge's stated laws, proved over the poller's update rule.

use vstd::prelude::*;

use crate::state_cell::{marked_loading, outcome_applied, Outcome, StateCell};

verus! {

/// An empty poll changes nothing: with no message on the response queue,
/// one completion step leaves the cell exactly as it was.
pub proof fn lemma_empty_poll_leaves_cell<I, O>(cell: StateCell<I, O>)
    ensures
        outcome_applied(cell, None::<Outcome<O>>) == cell,
{
}

/// The in-flight flag's lifecycle: raised when a request is enqueued, it
/// stays raised through every poll that sees no message, and a poll that
/// sees a success lowers it and stores the delivered value.
pub proof fn lemma_loading_lifecycle<I, O>(cell: StateCell<I, O>, v: O)
    ensures
        marked_loading(cell).loading,
        outcome_applied(marked_loading(cell), None::<Outcome<O>>).loading,
        outcome_applied(marked_loading(cell), Some(Outcome::Success(v))) == (StateCell {
            last_input: cell.last_input,
            last_output: Some(v),
            loading: false,
        }),
{
}

/// A failure leaves the output stale: a poll that sees the failure marker
/// lowers the in-flight flag and keeps the last output, whatever it was.
pub proof fn lemma_failure_leaves_output_stale<I, O>(cell: StateCell<I, O>)
    ensures
        outcome_applied(cell, Some(Outcome::Failure)).last_output == cell.last_output,
        !outcome_applied(cell, Some(Outcome::Failure)).loading,
        outcome_applied(cell, Some(Outcome::Failure)).last_input == cell.last_input,
{
}

/// The poller never touches the user's input and never raises the in-flight
/// flag, whatever message it saw on the response queue.
pub proof fn lemma_poll_preserves_input<I, O>(cell: StateCell<I, O>, msg: Option<Outcome<O>>)
    ensures
        outcome_applied(cell, msg).last_input == cell.last_input,
        outcome_applied(cell, msg).loading ==> cell.loading,
{
}

} // verus!
