//! Options for attaching a producer to an RTP observer. The observer
//! itself is an application-side entity; this layer only carries its
//! identifiers.

use vstd::prelude::*;

verus! {

/// Producer identifier: the 128 bits of the producer's UUID.
#[derive(Debug, Copy, Clone, Eq, PartialEq, Hash, Structural)]
pub struct ProducerId(pub u128);

/// Options for telling an RTP observer to watch one producer.
#[derive(Debug, Clone, Eq, PartialEq, Structural)]
#[non_exhaustive]
pub struct RtpObserverAddProducerOptions {
    /// The id of the producer to be added.
    pub producer_id: ProducerId,
}

impl RtpObserverAddProducerOptions {
    /// * `producer_id` - The id of the producer to be added.
    pub fn new(producer_id: ProducerId) -> (r: Self)
        ensures
            r.producer_id == producer_id,
    {
        Self { producer_id }
    }
}

} // verus!
