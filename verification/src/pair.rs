//! The channel pair and the two per-tick steps of the bridge.
//!
//! A pair owns one unbounded FIFO queue of requests going into the bridge
//! and one of outcomes coming back. Per tick, `dispatch_once` drains at most
//! one request and turns it into a call plan for the transport layer;
//! `poll_once` takes at most one outcome and applies it to the endpoint's
//! state cell. Neither step ever blocks.

use vstd::prelude::*;

use crate::channel::{clone_sender, new_unbounded, send_on, try_recv_on};
use crate::request::{plan_of, CallPlan, Request};
use crate::state_cell::{apply_outcome, marked_loading, outcome_applied, Outcome, StateCell};

verus! {

/// One endpoint's two queues: requests in, outcomes out. Exactly one pair
/// should exist per request/response type combination; `Registry::register`
/// guards that.
#[verifier::reject_recursive_types(Q)]
#[verifier::reject_recursive_types(O)]
pub struct ChannelPair<Q, O> {
    req_tx: crossbeam::channel::Sender<Q>,
    req_rx: crossbeam::channel::Receiver<Q>,
    res_tx: crossbeam::channel::Sender<Outcome<O>>,
    res_rx: crossbeam::channel::Receiver<Outcome<O>>,
}

/// A sending endpoint of one pair's response queue, cloned out for the
/// transport worker that completes a dispatched request.
#[verifier::reject_recursive_types(O)]
pub struct ResponseSender<O> {
    tx: crossbeam::channel::Sender<Outcome<O>>,
}

impl<Q, O> ChannelPair<Q, O> {
    /// Creates the pair's two unbounded queues.
    pub fn new() -> Self {
        let (req_tx, req_rx) = new_unbounded::<Q>();
        let (res_tx, res_rx) = new_unbounded::<Outcome<O>>();
        ChannelPair { req_tx, req_rx, res_tx, res_rx }
    }

    /// Enqueues a request and, at the same logical moment, raises the
    /// cell's in-flight flag, so no completion can race the flag being set.
    /// Reports false, leaving the cell alone, only when the queue is
    /// disconnected: a process-lifecycle bug the caller may treat as fatal.
    pub fn enqueue<I>(&self, req: Q, cell: &mut StateCell<I, O>) -> (ok: bool) where
        Q: Request<I>,

        ensures
            ok ==> *final(cell) == marked_loading(*old(cell)),
            !ok ==> *final(cell) == *old(cell),
    {
        let sent = send_on(&self.req_tx, req);
        if sent {
            cell.loading = true;
        }
        sent
    }

    /// One dispatch step: drains at most one pending request, without
    /// blocking, and extracts its call plan through the request's own
    /// accessors. The plan names a non-empty endpoint and carries exactly
    /// the payload of the request it was drained from.
    pub fn dispatch_once<I>(&self) -> (r: Option<CallPlan<I>>) where
        Q: Request<I>,

        ensures
            r matches Some(plan) ==> plan.endpoint@.len() > 0 && (exists|q: Q|
                plan.endpoint@ == #[trigger] q.endpoint_spec() && plan.payload == q.input_spec()),
    {
        match try_recv_on(&self.req_rx) {
            Some(q) => Some(plan_of(&q)),
            None => None,
        }
    }

    /// One completion step: polls the response queue without blocking and
    /// applies what it saw to the cell. Whatever message concurrent workers
    /// made available, the cell moves by the poller's update rule: its
    /// input is never touched, the in-flight flag is only ever lowered, and
    /// the output either stays as it was or holds a delivered value.
    pub fn poll_once<I>(&self, cell: &mut StateCell<I, O>) where
        Q: Request<I>,

        ensures
            exists|msg: Option<Outcome<O>>|
                *final(cell) == #[trigger] outcome_applied(*old(cell), msg),
            final(cell).last_input == old(cell).last_input,
            final(cell).loading ==> old(cell).loading,
            final(cell).last_output == old(cell).last_output || (final(cell).last_output is Some
                && !final(cell).loading),
    {
        let msg = try_recv_on(&self.res_rx);
        apply_outcome(cell, msg);
    }

    /// A sending endpoint of this pair's response queue, for the transport
    /// worker of a dispatched request.
    pub fn response_sender(&self) -> ResponseSender<O> {
        ResponseSender { tx: clone_sender(&self.res_tx) }
    }
}

impl<O> ResponseSender<O> {
    /// Pushes one completed request's outcome onto the response queue.
    /// Reports false only on a disconnected queue, a process-lifecycle bug.
    pub fn complete(&self, out: Outcome<O>) -> bool {
        send_on(&self.tx, out)
    }
}

/// Collapses a transport result into the outcome the UI layer sees: a value
/// on success, an opaque marker on any failure. The failure detail is
/// dropped here on purpose; logging it is the transport layer's business.
pub fn outcome_of<O, E>(result: Result<O, E>) -> (out: Outcome<O>)
    ensures
        result matches Ok(v) ==> out == Outcome::Success(v),
        result is Err ==> out is Failure,
{
    match result {
        Ok(v) => Outcome::Success(v),
        Err(_) => Outcome::Failure,
    }
}

} // verus!
