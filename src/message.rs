//! Messages: the explicit events through which every state change flows.

use vstd::prelude::*;

verus! {

/// Marker for message types: discrete events or commands that update a model.
pub trait Message: core::fmt::Debug + Clone + Send + Sync + 'static {}

} // verus!
