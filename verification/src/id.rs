//! Identifiers of operations: a client and a per-client counter.
use vstd::prelude::*;

verus! {

/// The identifier of a peer.
pub type ClientID = u64;

/// A per-client operation counter.
pub type Counter = i32;

/// The identifier of one atom of an operation: which client made it and where
/// in that client's sequence it stands.
#[derive(Clone, Copy, Debug, PartialEq, Eq, Structural)]
pub struct ID {
    pub client_id: ClientID,
    pub counter: Counter,
}

impl ID {
    /// The identifier `inc` steps after `self` in the same client's sequence.
    pub open spec fn spec_inc(self, inc: int) -> ID {
        ID { client_id: self.client_id, counter: (self.counter + inc) as i32 }
    }

    pub fn new(client_id: ClientID, counter: Counter) -> (r: ID)
        ensures
            r.client_id == client_id,
            r.counter == counter,
    {
        ID { client_id, counter }
    }

    /// Moves `inc` steps along the same client's sequence.
    pub fn inc(&self, inc: Counter) -> (r: ID)
        requires
            i32::MIN <= self.counter + inc <= i32::MAX,
        ensures
            r == self.spec_inc(inc as int),
            r.client_id == self.client_id,
            r.counter == self.counter + inc,
    {
        ID { client_id: self.client_id, counter: self.counter + inc }
    }
}

} // verus!
