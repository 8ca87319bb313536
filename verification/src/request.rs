//! The data contract every endpoint implements, and the call plan the
//! dispatch step extracts from a request.

use vstd::prelude::*;

verus! {

/// The minimal capability surface of an endpoint request: a stable,
/// non-empty endpoint identifier, and an optional payload (an absent
/// payload means "call with no body"). Both accessors are pure: calling
/// them any number of times yields the same values.
pub trait Request<I>: Sized {
    /// The endpoint identifier as a mathematical value. The default leaves
    /// it unspecified; verified implementations say what it is.
    open spec fn endpoint_spec(&self) -> Seq<char> {
        vstd::pervasive::arbitrary()
    }

    /// The payload as a mathematical value. The default leaves it
    /// unspecified; verified implementations say what it is.
    open spec fn input_spec(&self) -> Option<I> {
        vstd::pervasive::arbitrary()
    }

    /// The stable identifier of the remote operation.
    fn endpoint(&self) -> (r: String)
        ensures
            r@ == self.endpoint_spec(),
            r@.len() > 0,
    ;

    /// The payload to send, if the request carries one.
    fn input(&self) -> (r: Option<I>)
        ensures
            r == self.input_spec(),
    ;
}

/// A ready-made request: an explicit endpoint identifier and an optional
/// payload. Construction refuses an empty identifier, so every value of
/// this type satisfies the `Request` contract.
#[derive(Debug)]
pub struct PlainRequest<I> {
    endpoint: String,
    payload: Option<I>,
}

impl<I> PlainRequest<I> {
    #[verifier::type_invariant]
    spec fn inv(self) -> bool {
        self.endpoint@.len() > 0
    }

    /// The endpoint identifier this request was built with.
    pub closed spec fn endpoint_view(self) -> Seq<char> {
        self.endpoint@
    }

    /// The payload this request was built with.
    pub closed spec fn payload_view(self) -> Option<I> {
        self.payload
    }

    /// Builds a request, refusing an empty endpoint identifier.
    pub fn new(endpoint: String, payload: Option<I>) -> (r: Option<Self>)
        ensures
            r is Some <==> endpoint@.len() > 0,
            r matches Some(q) ==> q.endpoint_view() == endpoint@ && q.payload_view() == payload,
    {
        if endpoint.as_str().is_empty() {
            None
        } else {
            Some(PlainRequest { endpoint, payload })
        }
    }
}

impl<I: Copy> Request<I> for PlainRequest<I> {
    open spec fn endpoint_spec(&self) -> Seq<char> {
        self.endpoint_view()
    }

    open spec fn input_spec(&self) -> Option<I> {
        self.payload_view()
    }

    fn endpoint(&self) -> (r: String) {
        proof {
            use_type_invariant(&*self);
        }
        self.endpoint.clone()
    }

    fn input(&self) -> (r: Option<I>) {
        self.payload
    }
}

/// What the dispatch step hands to the transport layer for one drained
/// request: the remote operation's identifier and the payload to send.
#[derive(Debug)]
pub struct CallPlan<I> {
    pub endpoint: String,
    pub payload: Option<I>,
}

/// Extracts the call plan of a request through its own accessors.
pub fn plan_of<I, Q: Request<I>>(q: &Q) -> (r: CallPlan<I>)
    ensures
        r.endpoint@ == q.endpoint_spec(),
        r.endpoint@.len() > 0,
        r.payload == q.input_spec(),
{
    CallPlan { endpoint: q.endpoint(), payload: q.input() }
}

} // verus!
