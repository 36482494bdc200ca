use vstd::prelude::*;

verus! {

/// The events the conversation-list screen produces: opening a new
/// conversation, or selecting a stored one by its identifier.
#[derive(Debug, Clone, Copy, PartialEq, Eq, Structural)]
pub enum Message {
    NewChat,
    SelectChat(usize),
}

} // verus!
