//! Display building blocks without state: text, spacers and stacks.

pub mod layout;
pub mod text;

pub use layout::{Alignment, HStack, Spacer, VStack};
pub use text::Text;
