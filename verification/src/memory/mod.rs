//! Short-term conversation memory and the records of the long-term store.
pub mod conversation;

pub use conversation::{ConversationHistory, ConversationMessage};
pub mod store;

pub use store::{Session, StoredMessage};
