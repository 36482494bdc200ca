use vstd::prelude::*;

use crate::chat::{Chat, ChatMessage, ChatView, MessageView};

verus! {

/// Hands out conversation identifiers: a strictly increasing sequence
/// starting at zero, each value given out exactly once.
#[derive(Debug)]
pub struct IdAllocator {
    pub next_id: usize,
}

impl IdAllocator {
    pub fn new() -> (a: IdAllocator)
        ensures
            a.next_id == 0,
    {
        IdAllocator { next_id: 0 }
    }

    /// Returns a fresh identifier, strictly greater than every
    /// identifier returned before.
    pub fn next(&mut self) -> (id: usize)
        requires
            old(self).next_id < usize::MAX,
        ensures
            id == old(self).next_id,
            final(self).next_id == old(self).next_id + 1,
    {
        let id = self.next_id;
        self.next_id = self.next_id + 1;
        id
    }
}

/// Which conversation a message or event belongs to: the single pending
/// conversation still under composition, or a stored one, by the
/// identifier it was promoted under.
#[derive(Debug, Clone, Copy, PartialEq, Eq, Structural)]
pub enum ConversationRef {
    Pending,
    Existing(usize),
}

/// Every conversation of the session: the promoted ones, keyed by the
/// identifier the allocator gave them, and the single pending slot.
/// Identifiers are handed out consecutively from zero and never reused,
/// so the conversation with identifier `id` sits at position `id`.
#[derive(Debug)]
pub struct Store {
    pub chats: Vec<Chat>,
    pub pending: Chat,
    pub allocator: IdAllocator,
}

/// Mathematical model of a `Store`.
#[verifier::ext_equal]
pub ghost struct StoreView {
    pub chats: Seq<ChatView>,
    pub pending: ChatView,
}

impl View for Store {
    type V = StoreView;

    open spec fn view(&self) -> StoreView {
        StoreView { chats: self.chats@.map_values(|c: Chat| c@), pending: self.pending@ }
    }
}

/// Whether a reference resolves to a conversation of the store.
pub open spec fn resolves(v: StoreView, r: ConversationRef) -> bool {
    match r {
        ConversationRef::Pending => true,
        ConversationRef::Existing(id) => id < v.chats.len(),
    }
}

/// The conversation a reference resolves to.
pub open spec fn target(v: StoreView, r: ConversationRef) -> ChatView
    recommends
        resolves(v, r),
{
    match r {
        ConversationRef::Pending => v.pending,
        ConversationRef::Existing(id) => v.chats[id as int],
    }
}

/// The store with a message appended to the referenced conversation; a
/// reference to an absent identifier changes nothing.
pub open spec fn with_message(v: StoreView, r: ConversationRef, m: MessageView) -> StoreView {
    if !resolves(v, r) {
        v
    } else {
        match r {
            ConversationRef::Pending => StoreView {
                pending: ChatView { messages: v.pending.messages.push(m), ..v.pending },
                ..v
            },
            ConversationRef::Existing(id) => StoreView {
                chats: v.chats.update(
                    id as int,
                    ChatView {
                        messages: v.chats[id as int].messages.push(m),
                        ..v.chats[id as int]
                    },
                ),
                ..v
            },
        }
    }
}

/// The store after promotion: the pending conversation moved to the end
/// of the stored ones, and the pending slot empty again.
pub open spec fn promoted(v: StoreView) -> StoreView {
    StoreView { chats: v.chats.push(v.pending), pending: Chat::empty_view() }
}

impl Store {
    /// The allocator has given out exactly the identifiers of the
    /// stored conversations.
    pub open spec fn wf(&self) -> bool {
        self.allocator.next_id == self@.chats.len()
    }

    pub fn new() -> (s: Store)
        ensures
            s.wf(),
            s@.chats.len() == 0,
            s@.pending == Chat::empty_view(),
    {
        let s = Store { chats: Vec::new(), pending: Chat::new(), allocator: IdAllocator::new() };
        proof {
            assert(s@.chats =~= Seq::<ChatView>::empty());
        }
        s
    }

    /// Reading access to the referenced conversation; `None` when an
    /// identifier is absent.
    pub fn get(&self, r: ConversationRef) -> (c: Option<&Chat>)
        ensures
            resolves(self@, r) ==> (c matches Some(chat) && chat@ == target(self@, r)),
            !resolves(self@, r) ==> c is None,
    {
        match r {
            ConversationRef::Pending => Some(&self.pending),
            ConversationRef::Existing(id) => if id < self.chats.len() {
                Some(&self.chats[id])
            } else {
                None
            },
        }
    }

    /// Appends a message at the end of the referenced conversation; a
    /// reference to an absent identifier changes nothing.
    pub fn append(&mut self, r: ConversationRef, m: ChatMessage)
        ensures
            final(self)@ == with_message(old(self)@, r, m@),
            final(self).allocator == old(self).allocator,
    {
        match r {
            ConversationRef::Pending => {
                self.pending.messages.push(m);
                proof {
                    assert(self@ =~~= with_message(old(self)@, r, m@));
                }
            },
            ConversationRef::Existing(id) => {
                if id < self.chats.len() {
                    let chat = &mut self.chats[id];
                    chat.messages.push(m);
                    proof {
                        assert(self@.chats =~~= with_message(old(self)@, r, m@).chats);
                    }
                }
            },
        }
    }

    /// Moves the entire pending conversation into the store under a
    /// fresh identifier, resets the pending slot to empty, and returns
    /// the identifier.
    pub fn promote(&mut self) -> (id: usize)
        requires
            old(self).wf(),
            old(self)@.chats.len() < usize::MAX,
        ensures
            final(self).wf(),
            id == old(self)@.chats.len(),
            final(self)@ == promoted(old(self)@),
    {
        let id = self.allocator.next();
        let mut moved = Chat::new();
        core::mem::swap(&mut self.pending, &mut moved);
        self.chats.push(moved);
        proof {
            assert(self@.chats =~~= promoted(old(self)@).chats);
        }
        id
    }
}

} // verus!
