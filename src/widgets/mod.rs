//! Interactive components: models with state that produce views.

pub mod button;

pub use button::{Button, ButtonMessage, ButtonView};
