use vstd::prelude::*;
use vstd::string::StringExecFns;

use crate::assistant::Response;

verus! {

/// The author of a chat message: the human user or the remote assistant.
#[derive(Debug, Clone, Copy, PartialEq, Eq, Structural)]
pub enum Sender {
    User,
    Assistant,
}

/// One message of a conversation, immutable once created: its text, its
/// author, and the second (since the epoch) of its creation.
#[derive(Debug, Clone)]
pub struct ChatMessage {
    pub content: String,
    pub sender: Sender,
    pub timestamp: u64,
}

/// Mathematical model of a `ChatMessage`.
#[verifier::ext_equal]
pub ghost struct MessageView {
    pub content: Seq<char>,
    pub sender: Sender,
    pub timestamp: u64,
}

impl View for ChatMessage {
    type V = MessageView;

    open spec fn view(&self) -> MessageView {
        MessageView { content: self.content@, sender: self.sender, timestamp: self.timestamp }
    }
}

impl ChatMessage {
    pub fn new(content: String, sender: Sender, timestamp: u64) -> (m: ChatMessage)
        ensures
            m@ == (MessageView { content: content@, sender, timestamp }),
    {
        ChatMessage { content, sender, timestamp }
    }
}

/// A conversation: its messages in chronological order, and the draft
/// text of its input field.
#[derive(Debug, Clone)]
pub struct Chat {
    pub messages: Vec<ChatMessage>,
    pub input_value: String,
}

/// Mathematical model of a `Chat`.
#[verifier::ext_equal]
pub ghost struct ChatView {
    pub messages: Seq<MessageView>,
    pub input: Seq<char>,
}

impl View for Chat {
    type V = ChatView;

    open spec fn view(&self) -> ChatView {
        ChatView {
            messages: self.messages@.map_values(|m: ChatMessage| m@),
            input: self.input_value@,
        }
    }
}

impl Chat {
    /// The model of a conversation with no messages and no draft.
    pub open spec fn empty_view() -> ChatView {
        ChatView { messages: Seq::empty(), input: Seq::empty() }
    }

    pub fn new() -> (c: Chat)
        ensures
            c@ == Chat::empty_view(),
    {
        let c = Chat { messages: Vec::new(), input_value: String::new() };
        proof {
            assert(c@.messages =~= Seq::<MessageView>::empty());
        }
        c
    }
}

impl Default for Chat {
    fn default() -> (c: Chat)
        ensures
            c@ == Chat::empty_view(),
    {
        Chat::new()
    }
}

/// The projection of a message that is sent to the assistant gateway:
/// its text and its author; the timestamp stays local.
#[derive(Debug, Clone)]
pub struct TransportMessage {
    pub content: String,
    pub sender: Sender,
}

/// Mathematical model of a `TransportMessage`.
#[verifier::ext_equal]
pub ghost struct TransportView {
    pub content: Seq<char>,
    pub sender: Sender,
}

impl View for TransportMessage {
    type V = TransportView;

    open spec fn view(&self) -> TransportView {
        TransportView { content: self.content@, sender: self.sender }
    }
}

/// The transport projection of a single message model.
pub open spec fn transport_of(m: MessageView) -> TransportView {
    TransportView { content: m.content, sender: m.sender }
}

/// The transport projection of a whole history.
pub open spec fn transports_of(ms: Seq<MessageView>) -> Seq<TransportView> {
    ms.map_values(|m: MessageView| transport_of(m))
}

impl From<&ChatMessage> for TransportMessage {
    fn from(msg: &ChatMessage) -> (t: Self) {
        TransportMessage { content: msg.content.clone(), sender: msg.sender }
    }
}

impl vstd::std_specs::convert::FromSpecImpl<&ChatMessage> for TransportMessage {
    open spec fn obeys_from_spec() -> bool {
        true
    }

    open spec fn from_spec(msg: &ChatMessage) -> Self {
        TransportMessage { content: msg.content, sender: msg.sender }
    }
}

/// The events one conversation screen produces.
#[derive(Debug)]
pub enum Message {
    Back,
    InputChanged(String),
    Submit,
    ResponseReceived(Result<Response, String>),
}

/// The payload of one gateway call: the history that existed when the
/// submission happened, and the newly submitted message.
#[derive(Debug, Clone)]
pub struct OutboundRequest {
    pub history: Vec<TransportMessage>,
    pub new_message: TransportMessage,
}

/// Mathematical model of an `OutboundRequest`.
#[verifier::ext_equal]
pub ghost struct RequestView {
    pub history: Seq<TransportView>,
    pub new_message: TransportView,
}

impl View for OutboundRequest {
    type V = RequestView;

    open spec fn view(&self) -> RequestView {
        RequestView {
            history: self.history@.map_values(|t: TransportMessage| t@),
            new_message: self.new_message@,
        }
    }
}

/// What a conversation screen asks the session controller to do: leave
/// the conversation, or append a freshly created message, possibly with
/// a gateway call to dispatch.
pub enum Action {
    Back,
    NewMessage(ChatMessage, Option<OutboundRequest>),
}

/// Mathematical model of an `Action`.
pub ghost enum ActionView {
    Back,
    NewMessage(MessageView, Option<RequestView>),
}

/// The model of an action an update returned.
pub open spec fn action_view(action: Option<Action>) -> Option<ActionView> {
    match action {
        None => None,
        Some(Action::Back) => Some(ActionView::Back),
        Some(Action::NewMessage(m, req)) => Some(
            ActionView::NewMessage(
                m@,
                match req {
                    None => None,
                    Some(q) => Some(q@),
                },
            ),
        ),
    }
}

/// The prefix put in front of a failure reason shown as a message.
pub open spec fn error_prefix() -> Seq<char> {
    "Error: "@
}

/// The message a gateway result turns into: the reply itself when it
/// succeeded, stamped with the reply's own time; the prefixed failure
/// text stamped with the arrival time otherwise.
pub open spec fn reply_view(result: Result<Response, String>, now: u64) -> MessageView {
    match result {
        Ok(resp) => MessageView {
            content: resp.content@,
            sender: Sender::Assistant,
            timestamp: resp.timestamp,
        },
        Err(reason) => MessageView {
            content: error_prefix() + reason@,
            sender: Sender::Assistant,
            timestamp: now,
        },
    }
}

/// The conversation after one event is applied to it. Only the draft
/// input ever changes here: messages are appended by the session
/// controller, which owns the store.
pub open spec fn chat_step(c: ChatView, message: Message, now: u64) -> ChatView {
    match message {
        Message::Back => c,
        Message::InputChanged(value) => ChatView { input: value@, ..c },
        Message::Submit => if c.input.len() == 0 {
            c
        } else {
            ChatView { input: Seq::empty(), ..c }
        },
        Message::ResponseReceived(_) => c,
    }
}

/// The action one event asks for. A submission with an empty draft asks
/// for nothing; a non-empty one creates the user's message and carries
/// the gateway payload; a gateway result creates the reply message and
/// carries no payload.
pub open spec fn chat_action(c: ChatView, message: Message, now: u64) -> Option<ActionView> {
    match message {
        Message::Back => Some(ActionView::Back),
        Message::InputChanged(_) => None,
        Message::Submit => if c.input.len() == 0 {
            None
        } else {
            Some(
                ActionView::NewMessage(
                    MessageView { content: c.input, sender: Sender::User, timestamp: now },
                    Some(
                        RequestView {
                            history: transports_of(c.messages),
                            new_message: TransportView { content: c.input, sender: Sender::User },
                        },
                    ),
                ),
            )
        },
        Message::ResponseReceived(result) => Some(
            ActionView::NewMessage(reply_view(result, now), None),
        ),
    }
}

/// Applies one event to a conversation and returns what the session
/// controller must do with it.
pub fn update(message: Message, chat: &mut Chat, now: u64) -> (action: Option<Action>)
    ensures
        final(chat)@ == chat_step(old(chat)@, message, now),
        action_view(action) == chat_action(old(chat)@, message, now),
{
    match message {
        Message::Back => Some(Action::Back),
        Message::InputChanged(value) => {
            chat.input_value = value;
            None
        },
        Message::Submit => {
            if chat.input_value.as_str().is_empty() {
                return None;
            }
            let content = chat.input_value.clone();
            chat.input_value = String::new();

            let ghost pre_messages = chat@.messages;
            let mut history: Vec<TransportMessage> = Vec::new();
            let mut i: usize = 0;
            while i < chat.messages.len()
                invariant
                    i <= chat.messages@.len(),
                    history@.len() == i,
                    chat@.messages == pre_messages,
                    forall|j: int|
                        0 <= j < i ==> history@[j]@ == transport_of(chat.messages@[j]@),
                decreases chat.messages@.len() - i,
            {
                history.push(TransportMessage::from(&chat.messages[i]));
                i = i + 1;
            }

            let user_message = ChatMessage::new(content, Sender::User, now);
            let transport_message = TransportMessage::from(&user_message);
            let request = OutboundRequest { history, new_message: transport_message };
            proof {
                assert(request@.history =~= transports_of(old(chat)@.messages));
            }
            Some(Action::NewMessage(user_message, Some(request)))
        },
        Message::ResponseReceived(result) => match result {
            Ok(response) => {
                let reply = ChatMessage::new(
                    response.content,
                    Sender::Assistant,
                    response.timestamp,
                );
                Some(Action::NewMessage(reply, None))
            },
            Err(reason) => {
                let text = "Error: ".to_owned().concat(reason.as_str());
                let reply = ChatMessage::new(text, Sender::Assistant, now);
                Some(Action::NewMessage(reply, None))
            },
        },
    }
}

} // verus!
