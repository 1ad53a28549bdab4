//! Backends: consumers of view trees.

pub mod mock;

pub use mock::{
    DynamicChildModel, MockBackend, MockButton, MockDynamicChild, MockHStack, MockOutput,
    MockOutputModel, MockSpacer, MockText, MockVStack,
};
