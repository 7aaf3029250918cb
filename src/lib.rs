//! Client-side core of a PAM conversation: status codes, errors that can
//! hand a value back to the caller, and a non-interactive conversation
//! handler that answers prompts from preset credentials.

pub mod code;
pub mod conv_mock;
pub mod conversation;
pub mod error;

pub use code::{IoErrorKind, ReturnCode};
pub use conv_mock::{Conversation, LogEntry};
pub use conversation::ConversationHandler;
pub use error::{DisplayHelper, Error, ErrorWith, NoPayload};
