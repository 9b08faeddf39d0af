//! The uniform conversation-turn model shared by all backend adapters.

use vstd::prelude::*;

verus! {

/// The speaker category of a conversation turn.
#[derive(Clone, Copy, Debug, PartialEq, Eq, Structural)]
pub enum Role {
    /// Out-of-band instructions to the model.
    System,
    /// A turn authored by the end user.
    User,
    /// A turn authored by the model.
    Assistant,
}

/// One immutable conversation turn: a role together with its text.
///
/// Ordering within a sequence of messages is conversation order and is
/// significant. Empty content is legal and passed through unchanged.
#[derive(Clone, Debug)]
pub struct Message {
    /// The speaker category of this turn.
    pub role: Role,
    /// The text of this turn.
    pub content: String,
}

impl Message {
    /// Build a System-role message from text.
    pub fn system(content: String) -> (m: Message)
        ensures
            m.role == Role::System,
            m.content@ == content@,
    {
        Message { role: Role::System, content }
    }

    /// Build a User-role message from text.
    pub fn user(content: String) -> (m: Message)
        ensures
            m.role == Role::User,
            m.content@ == content@,
    {
        Message { role: Role::User, content }
    }

    /// Build an Assistant-role message from text.
    pub fn assistant(content: String) -> (m: Message)
        ensures
            m.role == Role::Assistant,
            m.content@ == content@,
    {
        Message { role: Role::Assistant, content }
    }
}

} // verus!
