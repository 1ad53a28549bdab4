//! Models: application state that changes only through messages.

use vstd::prelude::*;

use crate::message::Message;

verus! {

/// Application state. `update` consumes the old model and returns the new one,
/// so every change is an explicit transition driven by a message.
pub trait Model: Clone + core::fmt::Debug + Send + Sync + 'static {
    /// The messages that drive this model.
    type Message: Message;

    /// The model after `message` has been handled.
    fn update(self, message: Self::Message) -> Self;
}

/// A model that describes its current state as a view.
pub trait Component: Model {
    /// The view type that presents this model.
    type View: crate::view::View;

    /// The view of the current state.
    fn view(&self) -> Self::View;
}

} // verus!
