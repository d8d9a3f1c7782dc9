//! An append-only guestbook: authenticated authors add short messages to one
//! shared log, and anyone can read the whole log back, in the order in which
//! the messages were added.

pub mod guestbook;
pub mod host;
pub mod laws;
pub mod message;

pub use guestbook::{GuestbookContract, GuestbookError, MAX_MESSAGES};
pub use message::Message;
