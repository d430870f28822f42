//! Events the application emits.

use vstd::prelude::*;

verus! {

/// An event with an optional payload.
#[derive(Clone, Debug)]
pub struct ApplicationEvent<D> {
    /// Identifier of the event.
    pub event: String,
    /// Who emits the event.
    pub source: String,
    /// Payload of the event.
    pub payload: Option<D>,
}

} // verus!
