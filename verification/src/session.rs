use vstd::prelude::*;

use crate::assistant::Response;
use crate::chat;
use crate::chat::{ActionView, Chat, ChatView, MessageView, OutboundRequest, RequestView, Sender};
use crate::list;
use crate::store;
use crate::store::{ConversationRef, Store, StoreView};

verus! {

/// The screen the user is looking at: the list of stored conversations,
/// the pending conversation under composition, or a stored conversation.
#[derive(Debug, Clone, Copy, PartialEq, Eq, Structural)]
pub enum Screen {
    List,
    Composing,
    Viewing(usize),
}

/// Everything the session controller reacts to: an event of the list
/// screen, or an event of a conversation screen together with the
/// conversation it is bound to.
#[derive(Debug)]
pub enum Message {
    List(list::Message),
    Chat(ConversationRef, chat::Message),
}

/// One gateway call the controller asks its caller to perform: the
/// request payload, and the identifier of the conversation the eventual
/// result must be delivered to — fixed now, whatever navigation happens
/// while the call is in flight.
#[derive(Debug)]
pub struct DispatchRequest {
    pub target: usize,
    pub request: OutboundRequest,
}

/// Mathematical model of a `DispatchRequest`.
#[verifier::ext_equal]
pub ghost struct DispatchView {
    pub target: usize,
    pub request: RequestView,
}

impl View for DispatchRequest {
    type V = DispatchView;

    open spec fn view(&self) -> DispatchView {
        DispatchView { target: self.target, request: self.request@ }
    }
}

/// The model of a dispatch an update returned.
pub open spec fn dispatch_view(out: Option<DispatchRequest>) -> Option<DispatchView> {
    match out {
        None => None,
        Some(d) => Some(d@),
    }
}

/// The session: the active screen and every conversation.
pub struct Session {
    pub screen: Screen,
    pub store: Store,
}

/// Mathematical model of a `Session`.
#[verifier::ext_equal]
pub ghost struct SessionView {
    pub screen: Screen,
    pub chats: Seq<ChatView>,
    pub pending: ChatView,
}

impl View for Session {
    type V = SessionView;

    open spec fn view(&self) -> SessionView {
        SessionView { screen: self.screen, chats: self.store@.chats, pending: self.store@.pending }
    }
}

/// The store part of a session model.
pub open spec fn store_of(s: SessionView) -> StoreView {
    StoreView { chats: s.chats, pending: s.pending }
}

/// The session with the referenced conversation replaced.
pub open spec fn with_target(s: SessionView, r: ConversationRef, c: ChatView) -> SessionView {
    match r {
        ConversationRef::Pending => SessionView { pending: c, ..s },
        ConversationRef::Existing(id) => SessionView { chats: s.chats.update(id as int, c), ..s },
    }
}

/// The session state after one event.
///
/// List events only move the screen. A conversation event is applied to
/// the conversation it is bound to (an absent identifier changes
/// nothing); going back from the pending conversation discards it; a
/// newly created message is appended, and when it is the first
/// submission of the pending conversation, that conversation is
/// promoted under a fresh identifier and shown.
pub open spec fn step(pre: SessionView, message: Message, now: u64) -> SessionView {
    match message {
        Message::List(list::Message::NewChat) => SessionView { screen: Screen::Composing, ..pre },
        Message::List(list::Message::SelectChat(id)) => SessionView {
            screen: Screen::Viewing(id),
            ..pre
        },
        Message::Chat(r, msg) => {
            if !store::resolves(store_of(pre), r) {
                pre
            } else {
                let c = store::target(store_of(pre), r);
                let after = chat::chat_step(c, msg, now);
                match chat::chat_action(c, msg, now) {
                    None => with_target(pre, r, after),
                    Some(ActionView::Back) => SessionView {
                        screen: Screen::List,
                        chats: pre.chats,
                        pending: match r {
                            ConversationRef::Pending => Chat::empty_view(),
                            ConversationRef::Existing(_) => pre.pending,
                        },
                    },
                    Some(ActionView::NewMessage(m, _)) => match r {
                        ConversationRef::Existing(id) => SessionView {
                            screen: pre.screen,
                            chats: pre.chats.update(
                                id as int,
                                ChatView { messages: c.messages.push(m), input: after.input },
                            ),
                            pending: pre.pending,
                        },
                        ConversationRef::Pending => SessionView {
                            screen: Screen::Viewing(pre.chats.len() as usize),
                            chats: pre.chats.push(
                                ChatView { messages: c.messages.push(m), input: after.input },
                            ),
                            pending: Chat::empty_view(),
                        },
                    },
                }
            }
        },
    }
}

/// The gateway call one event dispatches, if any: only a submission
/// dispatches one, and its routing target is the conversation's
/// identifier — for a submission of the pending conversation, the
/// identifier it is promoted under.
pub open spec fn step_out(pre: SessionView, message: Message, now: u64) -> Option<DispatchView> {
    match message {
        Message::Chat(r, msg) => {
            if !store::resolves(store_of(pre), r) {
                None
            } else {
                match chat::chat_action(store::target(store_of(pre), r), msg, now) {
                    Some(ActionView::NewMessage(_, Some(q))) => Some(
                        DispatchView {
                            target: match r {
                                ConversationRef::Existing(id) => id,
                                ConversationRef::Pending => pre.chats.len() as usize,
                            },
                            request: q,
                        },
                    ),
                    _ => None,
                }
            }
        },
        _ => None,
    }
}

impl Session {
    /// The store's identifiers and allocator agree.
    pub open spec fn wf(&self) -> bool {
        self.store.wf()
    }

    /// A fresh session: the list screen, no stored conversation, an
    /// empty pending conversation.
    pub fn new() -> (s: Session)
        ensures
            s.wf(),
            s@.screen == Screen::List,
            s@.chats.len() == 0,
            s@.pending == Chat::empty_view(),
    {
        Session { screen: Screen::List, store: Store::new() }
    }

    /// Applies one event: mutates the screen and the store, and returns
    /// the gateway call to dispatch, if the event submitted a message.
    pub fn update(&mut self, message: Message, now: u64) -> (out: Option<DispatchRequest>)
        requires
            old(self).wf(),
            old(self)@.chats.len() < usize::MAX,
        ensures
            final(self).wf(),
            final(self)@ == step(old(self)@, message, now),
            dispatch_view(out) == step_out(old(self)@, message, now),
    {
        let ghost gm = message;
        match message {
            Message::List(list::Message::NewChat) => {
                self.screen = Screen::Composing;
                None
            },
            Message::List(list::Message::SelectChat(id)) => {
                self.screen = Screen::Viewing(id);
                None
            },
            Message::Chat(r, msg) => {
                let ghost gmsg = msg;
                match r {
                    ConversationRef::Pending => {
                        let ghost c = self.store.pending@;
                        let action = chat::update(msg, &mut self.store.pending, now);
                        match action {
                            None => None,
                            Some(chat::Action::Back) => {
                                self.screen = Screen::List;
                                self.store.pending = Chat::new();
                                None
                            },
                            Some(chat::Action::NewMessage(m, request)) => {
                                self.store.append(ConversationRef::Pending, m);
                                let id = self.store.promote();
                                self.screen = Screen::Viewing(id);
                                proof {
                                    assert(self@.chats =~~= step(old(self)@, gm, now).chats);
                                }
                                match request {
                                    Some(q) => Some(DispatchRequest { target: id, request: q }),
                                    None => None,
                                }
                            },
                        }
                    },
                    ConversationRef::Existing(id) => {
                        if id < self.store.chats.len() {
                            let ghost c = self.store.chats@[id as int]@;
                            let action = chat::update(msg, &mut self.store.chats[id], now);
                            proof {
                                assert(self.store@.chats =~~= old(self)@.chats.update(
                                    id as int,
                                    chat::chat_step(c, gmsg, now),
                                ));
                            }
                            match action {
                                None => None,
                                Some(chat::Action::Back) => {
                                    self.screen = Screen::List;
                                    proof {
                                        assert(self.store@.chats =~~= old(self)@.chats);
                                    }
                                    None
                                },
                                Some(chat::Action::NewMessage(m, request)) => {
                                    self.store.append(ConversationRef::Existing(id), m);
                                    proof {
                                        assert(self@.chats =~~= step(old(self)@, gm, now).chats);
                                    }
                                    match request {
                                        Some(q) => Some(
                                            DispatchRequest { target: id, request: q },
                                        ),
                                        None => None,
                                    }
                                },
                            }
                        } else {
                            None
                        }
                    },
                }
            },
        }
    }
}

/// Whether an event is pure navigation: opening the composer, selecting
/// a stored conversation, or going back — no submission, no input edit,
/// no gateway result.
pub open spec fn is_navigation(message: Message) -> bool {
    match message {
        Message::List(_) => true,
        Message::Chat(_, m) => m matches chat::Message::Back,
    }
}

/// Law: one navigation event never adds a conversation to the store.
pub proof fn lemma_navigation_keeps_store(pre: SessionView, message: Message, now: u64)
    requires
        is_navigation(message),
    ensures
        step(pre, message, now).chats == pre.chats,
{
}

/// The session state after a whole sequence of events, each applied at
/// its own time.
pub open spec fn run(pre: SessionView, messages: Seq<Message>, nows: Seq<u64>) -> SessionView
    decreases messages.len(),
{
    if messages.len() == 0 {
        pre
    } else {
        run(step(pre, messages[0], nows[0]), messages.drop_first(), nows.drop_first())
    }
}

/// Law: over any sequence of navigation events — and so over any
/// sequence without a submission — the store keeps exactly the
/// conversations it had.
pub proof fn lemma_navigation_run_keeps_store(
    pre: SessionView,
    messages: Seq<Message>,
    nows: Seq<u64>,
)
    requires
        forall|i: int| 0 <= i < messages.len() ==> is_navigation(#[trigger] messages[i]),
    ensures
        run(pre, messages, nows).chats == pre.chats,
    decreases messages.len(),
{
    if messages.len() > 0 {
        lemma_navigation_keeps_store(pre, messages[0], nows[0]);
        assert forall|i: int|
            0 <= i < messages.drop_first().len() implies is_navigation(
            #[trigger] messages.drop_first()[i],
        ) by {
            assert(messages.drop_first()[i] == messages[i + 1]);
        }
        lemma_navigation_run_keeps_store(
            step(pre, messages[0], nows[0]),
            messages.drop_first(),
            nows.drop_first(),
        );
    }
}

/// Law: submitting the pending conversation allocates exactly one fresh
/// identifier, strictly greater than every identifier allocated before.
pub proof fn lemma_submit_allocates_fresh_id(pre: SessionView, now: u64)
    requires
        pre.pending.input.len() > 0,
        pre.chats.len() < usize::MAX,
    ensures
        ({
            let submit = Message::Chat(ConversationRef::Pending, chat::Message::Submit);
            let post = step(pre, submit, now);
            let out = step_out(pre, submit, now);
            &&& post.chats.len() == pre.chats.len() + 1
            &&& out matches Some(d) && d.target == pre.chats.len() && (forall|earlier: int|
                #![trigger pre.chats[earlier]]
                0 <= earlier < pre.chats.len() ==> earlier < d.target as int)
        }),
{
}

/// Law: promotion leaves the pending slot empty and independent. After
/// a submission promotes the pending conversation, opening a new
/// conversation, drafting and submitting again allocates a different,
/// larger identifier and leaves the first conversation untouched.
pub proof fn lemma_promotion_independence(
    pre: SessionView,
    draft: chat::Message,
    now0: u64,
    now1: u64,
    now2: u64,
)
    requires
        pre.pending.input.len() > 0,
        draft matches chat::Message::InputChanged(text) && text@.len() > 0,
        pre.chats.len() + 1 < usize::MAX,
    ensures
        ({
            let submit = Message::Chat(ConversationRef::Pending, chat::Message::Submit);
            let s1 = step(pre, submit, now0);
            let s2 = step(s1, Message::List(list::Message::NewChat), now1);
            let s3 = step(s2, Message::Chat(ConversationRef::Pending, draft), now1);
            let s4 = step(s3, submit, now2);
            let out0 = step_out(pre, submit, now0);
            let out1 = step_out(s3, submit, now2);
            &&& s1.pending == Chat::empty_view()
            &&& out0 matches Some(d0) && d0.target == pre.chats.len()
            &&& out1 matches Some(d1) && d1.target == pre.chats.len() + 1
            &&& s4.chats.len() == pre.chats.len() + 2
            &&& s4.chats[pre.chats.len() as int] == s1.chats[pre.chats.len() as int]
        }),
{
}

/// Law: a gateway result is appended to the conversation it was bound
/// to at dispatch time, whatever screen is active when it arrives, and
/// every other conversation is untouched.
pub proof fn lemma_response_routed_by_binding(
    pre: SessionView,
    id: usize,
    result: Result<Response, String>,
    now: u64,
)
    requires
        id < pre.chats.len(),
    ensures
        ({
            let event = Message::Chat(
                ConversationRef::Existing(id),
                chat::Message::ResponseReceived(result),
            );
            let post = step(pre, event, now);
            &&& post.screen == pre.screen
            &&& post.pending == pre.pending
            &&& post.chats.len() == pre.chats.len()
            &&& post.chats[id as int].messages == pre.chats[id as int].messages.push(
                chat::reply_view(result, now),
            )
            &&& post.chats[id as int].input == pre.chats[id as int].input
            &&& forall|j: int|
                0 <= j < pre.chats.len() && j != id ==> post.chats[j] == pre.chats[j]
        }),
{
}

/// Law: the result of a request issued against the pending conversation
/// lands in the conversation it was promoted into. The first submission
/// binds the fresh identifier; the reply delivered under that
/// identifier extends exactly the promoted conversation: the drafted
/// history, the user's message, then the reply.
pub proof fn lemma_promoted_request_correlates(
    pre: SessionView,
    resp: Response,
    now0: u64,
    now1: u64,
)
    requires
        pre.pending.input.len() > 0,
        pre.chats.len() < usize::MAX,
    ensures
        ({
            let submit = Message::Chat(ConversationRef::Pending, chat::Message::Submit);
            let s1 = step(pre, submit, now0);
            let out = step_out(pre, submit, now0);
            let id = pre.chats.len() as usize;
            let s2 = step(
                s1,
                Message::Chat(
                    ConversationRef::Existing(id),
                    chat::Message::ResponseReceived(Ok(resp)),
                ),
                now1,
            );
            &&& out matches Some(d) && d.target == id
            &&& s1.screen == Screen::Viewing(id)
            &&& s2.chats[id as int].messages == pre.pending.messages.push(
                MessageView {
                    content: pre.pending.input,
                    sender: Sender::User,
                    timestamp: now0,
                },
            ).push(
                MessageView {
                    content: resp.content@,
                    sender: Sender::Assistant,
                    timestamp: resp.timestamp,
                },
            )
        }),
{
}

/// Law: submitting a drafted message and then receiving the successful
/// reply bound to the same conversation appends exactly the user's
/// message and then the reply, in that order, after the prior history.
pub proof fn lemma_round_trip(pre: SessionView, id: usize, resp: Response, now0: u64, now1: u64)
    requires
        id < pre.chats.len(),
        pre.chats[id as int].input.len() > 0,
    ensures
        ({
            let s1 = step(pre, Message::Chat(ConversationRef::Existing(id), chat::Message::Submit), now0);
            let s2 = step(
                s1,
                Message::Chat(
                    ConversationRef::Existing(id),
                    chat::Message::ResponseReceived(Ok(resp)),
                ),
                now1,
            );
            s2.chats[id as int].messages == pre.chats[id as int].messages.push(
                MessageView {
                    content: pre.chats[id as int].input,
                    sender: Sender::User,
                    timestamp: now0,
                },
            ).push(
                MessageView {
                    content: resp.content@,
                    sender: Sender::Assistant,
                    timestamp: resp.timestamp,
                },
            )
        }),
{
}

} // verus!
