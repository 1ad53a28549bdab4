//! Ironwood: a declarative UI description framework with unidirectional data
//! flow. Models produce view trees, and backends turn those trees into their
//! own output through extraction, either statically (generic dispatch over
//! tuples, options and containers) or dynamically (a registry keyed by view
//! type).

pub mod backends;
pub mod elements;
pub mod extraction;
pub mod interaction;
pub mod message;
pub mod model;
pub mod style;
pub mod view;
pub mod widgets;

pub use elements::{Alignment, HStack, Spacer, Text, VStack};
pub use extraction::{
    DynamicExtractor, ExtractionError, ExtractionResult, RenderContext, ViewExtractor, ViewRegistry,
};
pub use interaction::{
    Enableable, Focusable, Hoverable, InteractionFlag, InteractionMessage, InteractionState,
    Interactive, Pressable,
};
pub use message::Message;
pub use model::{Component, Model};
pub use style::{Color, TextStyle};
pub use view::{AnyView, DynamicView, TypeKey, View};
pub use widgets::{Button, ButtonMessage, ButtonView};
