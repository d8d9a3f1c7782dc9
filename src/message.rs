//! One entry of the guestbook.

use vstd::prelude::*;

verus! {

/// A message as it stands in the log: who wrote it and what it says.
/// An entry never changes once it has been added.
#[derive(Clone)]
pub struct Message {
    pub user: soroban_sdk::Address,
    pub content: soroban_sdk::String,
}

impl Message {
    /// Pairs an author with the text they wrote.
    pub fn new(user: soroban_sdk::Address, content: soroban_sdk::String) -> (r: Message)
        ensures
            r.user == user,
            r.content == content,
    {
        Message { user, content }
    }
}

} // verus!
