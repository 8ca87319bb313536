//! The per-endpoint UI state cell and the completion poller's update rule.

use vstd::prelude::*;

verus! {

/// The two-valued result of a dispatched request: a typed value on success,
/// or an opaque failure marker. The bridge deliberately forwards no failure
/// detail to the UI layer; a failed request only stops the spinner.
#[derive(Debug)]
pub enum Outcome<O> {
    Success(O),
    Failure,
}

/// Per-endpoint record that the UI renders: the last input the user typed,
/// the last output the bridge delivered (if any), and whether a request is
/// in flight. Only the single-threaded UI side ever touches a cell; spawned
/// transport work writes to the response queue instead.
#[derive(Debug)]
pub struct StateCell<I, O> {
    pub last_input: I,
    pub last_output: Option<O>,
    pub loading: bool,
}

impl<I, O> StateCell<I, O> {
    /// A fresh cell: no output yet, nothing in flight.
    pub fn new(input: I) -> (r: Self)
        ensures
            r.last_input == input,
            r.last_output is None,
            !r.loading,
    {
        StateCell { last_input: input, last_output: None, loading: false }
    }
}

/// The cell as it stands right after a request for its endpoint was
/// enqueued: the in-flight flag is raised, nothing else moves.
pub open spec fn marked_loading<I, O>(cell: StateCell<I, O>) -> StateCell<I, O> {
    StateCell { loading: true, ..cell }
}

/// The cell as it stands after the completion poller saw `msg` on the
/// response queue. No message leaves the cell exactly as it was; a success
/// stores the value and lowers the in-flight flag; a failure lowers the
/// flag but keeps the stale output.
pub open spec fn outcome_applied<I, O>(
    cell: StateCell<I, O>,
    msg: Option<Outcome<O>>,
) -> StateCell<I, O> {
    match msg {
        None => cell,
        Some(Outcome::Success(v)) => StateCell { last_output: Some(v), loading: false, ..cell },
        Some(Outcome::Failure) => StateCell { loading: false, ..cell },
    }
}

/// One completion step of the poller, applied to a message it took from the
/// response queue (or to the absence of one).
pub fn apply_outcome<I, O>(cell: &mut StateCell<I, O>, msg: Option<Outcome<O>>)
    ensures
        *final(cell) == outcome_applied(*old(cell), msg),
{
    match msg {
        None => {}
        Some(Outcome::Success(v)) => {
            cell.last_output = Some(v);
            cell.loading = false;
        }
        Some(Outcome::Failure) => {
            cell.loading = false;
        }
    }
}

} // verus!
