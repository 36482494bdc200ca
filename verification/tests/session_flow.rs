use assistant_chat::assistant::Response;
use assistant_chat::chat;
use assistant_chat::list;
use assistant_chat::session::{Message, Screen, Session};
use assistant_chat::store::ConversationRef;
use assistant_chat::Sender;

fn submit_text(session: &mut Session, r: ConversationRef, text: &str, now: u64) -> Option<assistant_chat::session::DispatchRequest> {
    let none = session.update(Message::Chat(r, chat::Message::InputChanged(text.to_string())), now);
    assert!(none.is_none());
    session.update(Message::Chat(r, chat::Message::Submit), now)
}

#[test]
fn navigation_alone_never_adds_conversations() {
    let mut session = Session::new();
    assert_eq!(session.store.chats.len(), 0);
    session.update(Message::List(list::Message::NewChat), 1);
    session.update(Message::Chat(ConversationRef::Pending, chat::Message::Back), 2);
    session.update(Message::List(list::Message::SelectChat(7)), 3);
    session.update(Message::List(list::Message::NewChat), 4);
    session.update(Message::Chat(ConversationRef::Pending, chat::Message::Back), 5);
    assert_eq!(session.store.chats.len(), 0);
    assert_eq!(session.store.allocator.next_id, 0);
}

#[test]
fn submit_on_composing_allocates_increasing_ids() {
    let mut session = Session::new();
    session.update(Message::List(list::Message::NewChat), 1);
    let first = submit_text(&mut session, ConversationRef::Pending, "one", 2).expect("a dispatch");
    assert_eq!(first.target, 0);
    session.update(Message::List(list::Message::NewChat), 3);
    let second = submit_text(&mut session, ConversationRef::Pending, "two", 4).expect("a dispatch");
    assert_eq!(second.target, 1);
    assert!(second.target > first.target);
    assert_eq!(session.store.chats.len(), 2);
    assert_eq!(session.store.allocator.next_id, 2);
}

#[test]
fn promotion_resets_and_isolates_the_pending_slot() {
    let mut session = Session::new();
    session.update(Message::List(list::Message::NewChat), 1);
    let first = submit_text(&mut session, ConversationRef::Pending, "first", 2).expect("a dispatch");
    assert!(session.store.pending.messages.is_empty());
    assert!(session.store.pending.input_value.is_empty());

    session.update(Message::List(list::Message::NewChat), 3);
    let second = submit_text(&mut session, ConversationRef::Pending, "second", 4).expect("a dispatch");
    assert_ne!(first.target, second.target);
    assert_eq!(session.store.chats.len(), 2);
    assert_eq!(session.store.chats[0].messages.len(), 1);
    assert_eq!(session.store.chats[0].messages[0].content, "first");
    assert_eq!(session.store.chats[1].messages.len(), 1);
    assert_eq!(session.store.chats[1].messages[0].content, "second");
}

#[test]
fn response_lands_in_its_bound_conversation_whatever_the_screen() {
    let mut session = Session::new();
    session.update(Message::List(list::Message::NewChat), 1);
    submit_text(&mut session, ConversationRef::Pending, "alpha", 2);
    session.update(Message::List(list::Message::NewChat), 3);
    submit_text(&mut session, ConversationRef::Pending, "beta", 4);

    // Navigate far away from conversation 0 before its reply arrives.
    session.update(Message::List(list::Message::SelectChat(1)), 5);
    assert_eq!(session.screen, Screen::Viewing(1));

    let reply = Response { content: "routed".to_string(), timestamp: 10 };
    let out = session.update(
        Message::Chat(ConversationRef::Existing(0), chat::Message::ResponseReceived(Ok(reply))),
        6,
    );
    assert!(out.is_none());
    assert_eq!(session.screen, Screen::Viewing(1));
    assert_eq!(session.store.chats[0].messages.len(), 2);
    assert_eq!(session.store.chats[0].messages[1].content, "routed");
    assert_eq!(session.store.chats[0].messages[1].sender, Sender::Assistant);
    assert_eq!(session.store.chats[1].messages.len(), 1);
}

#[test]
fn round_trip_appends_user_then_assistant() {
    let mut session = Session::new();
    session.update(Message::List(list::Message::NewChat), 1);
    submit_text(&mut session, ConversationRef::Pending, "question", 2);
    submit_text(&mut session, ConversationRef::Existing(0), "follow-up", 3);
    let reply = Response { content: "answer".to_string(), timestamp: 9 };
    session.update(
        Message::Chat(ConversationRef::Existing(0), chat::Message::ResponseReceived(Ok(reply))),
        4,
    );
    let messages = &session.store.chats[0].messages;
    assert_eq!(messages.len(), 3);
    assert_eq!(messages[1].content, "follow-up");
    assert_eq!(messages[1].sender, Sender::User);
    assert_eq!(messages[1].timestamp, 3);
    assert_eq!(messages[2].content, "answer");
    assert_eq!(messages[2].sender, Sender::Assistant);
    assert_eq!(messages[2].timestamp, 9);
}

#[test]
fn fresh_session_first_submission_and_success() {
    let mut session = Session::new();
    assert_eq!(session.screen, Screen::List);
    session.update(Message::List(list::Message::NewChat), 1);
    assert_eq!(session.screen, Screen::Composing);
    session.update(
        Message::Chat(ConversationRef::Pending, chat::Message::InputChanged("hi".to_string())),
        2,
    );
    let dispatch = session
        .update(Message::Chat(ConversationRef::Pending, chat::Message::Submit), 3)
        .expect("a request must be in flight");
    assert_eq!(session.screen, Screen::Viewing(0));
    assert_eq!(session.store.chats.len(), 1);
    assert_eq!(session.store.chats[0].messages.len(), 1);
    assert_eq!(session.store.chats[0].messages[0].content, "hi");
    assert_eq!(session.store.chats[0].messages[0].sender, Sender::User);
    assert_eq!(dispatch.target, 0);
    assert!(dispatch.request.history.is_empty());
    assert_eq!(dispatch.request.new_message.content, "hi");
    assert_eq!(dispatch.request.new_message.sender, Sender::User);

    let reply = Response { content: "hello".to_string(), timestamp: 100 };
    session.update(
        Message::Chat(
            ConversationRef::Existing(dispatch.target),
            chat::Message::ResponseReceived(Ok(reply)),
        ),
        5,
    );
    let messages = &session.store.chats[0].messages;
    assert_eq!(messages.len(), 2);
    assert_eq!(messages[0].content, "hi");
    assert_eq!(messages[0].sender, Sender::User);
    assert_eq!(messages[1].content, "hello");
    assert_eq!(messages[1].sender, Sender::Assistant);
    assert_eq!(messages[1].timestamp, 100);
}

#[test]
fn gateway_failure_becomes_a_visible_assistant_message() {
    let mut session = Session::new();
    session.update(Message::List(list::Message::NewChat), 1);
    let dispatch = submit_text(&mut session, ConversationRef::Pending, "hi", 2).expect("a dispatch");
    session.update(
        Message::Chat(
            ConversationRef::Existing(dispatch.target),
            chat::Message::ResponseReceived(Err("network down".to_string())),
        ),
        7,
    );
    let messages = &session.store.chats[0].messages;
    assert_eq!(messages.len(), 2);
    assert_eq!(messages[1].sender, Sender::Assistant);
    assert!(messages[1].content.contains("network down"));
    assert_eq!(messages[1].content, "Error: network down");
    assert_eq!(messages[1].timestamp, 7);
}

#[test]
fn concurrent_conversations_stay_independent() {
    let mut session = Session::new();
    session.update(Message::List(list::Message::NewChat), 1);
    submit_text(&mut session, ConversationRef::Pending, "first", 2);
    // Before conversation 0's response arrives, start and submit another.
    session.update(Message::List(list::Message::NewChat), 3);
    let second = submit_text(&mut session, ConversationRef::Pending, "second", 4).expect("a dispatch");
    assert_eq!(second.target, 1);
    assert_eq!(session.store.chats.len(), 2);

    let reply = Response { content: "late reply".to_string(), timestamp: 20 };
    session.update(
        Message::Chat(ConversationRef::Existing(0), chat::Message::ResponseReceived(Ok(reply))),
        5,
    );
    assert_eq!(session.store.chats[0].messages.len(), 2);
    assert_eq!(session.store.chats[0].messages[1].content, "late reply");
    assert_eq!(session.store.chats[1].messages.len(), 1);
    assert_eq!(session.store.chats[1].messages[0].content, "second");
}

#[test]
fn submit_with_empty_draft_is_a_no_op() {
    let mut session = Session::new();
    session.update(Message::List(list::Message::NewChat), 1);
    let out = session.update(Message::Chat(ConversationRef::Pending, chat::Message::Submit), 2);
    assert!(out.is_none());
    assert_eq!(session.store.chats.len(), 0);
    assert!(session.store.pending.messages.is_empty());
}

#[test]
fn back_from_composing_discards_the_draft() {
    let mut session = Session::new();
    session.update(Message::List(list::Message::NewChat), 1);
    session.update(
        Message::Chat(ConversationRef::Pending, chat::Message::InputChanged("typed".to_string())),
        2,
    );
    session.update(Message::Chat(ConversationRef::Pending, chat::Message::Back), 3);
    assert_eq!(session.screen, Screen::List);
    assert!(session.store.pending.input_value.is_empty());
    assert!(session.store.pending.messages.is_empty());
}

#[test]
fn event_bound_to_an_absent_id_changes_nothing() {
    let mut session = Session::new();
    session.update(Message::List(list::Message::NewChat), 1);
    submit_text(&mut session, ConversationRef::Pending, "only", 2);
    let out = session.update(
        Message::Chat(
            ConversationRef::Existing(5),
            chat::Message::ResponseReceived(Err("lost".to_string())),
        ),
        3,
    );
    assert!(out.is_none());
    assert_eq!(session.store.chats.len(), 1);
    assert_eq!(session.store.chats[0].messages.len(), 1);
}

#[test]
fn submission_carries_the_history_at_issue_time() {
    let mut session = Session::new();
    session.update(Message::List(list::Message::NewChat), 1);
    submit_text(&mut session, ConversationRef::Pending, "first", 2);
    let reply = Response { content: "reply".to_string(), timestamp: 3 };
    session.update(
        Message::Chat(ConversationRef::Existing(0), chat::Message::ResponseReceived(Ok(reply))),
        4,
    );
    let dispatch = submit_text(&mut session, ConversationRef::Existing(0), "third", 5).expect("a dispatch");
    assert_eq!(dispatch.target, 0);
    assert_eq!(dispatch.request.history.len(), 2);
    assert_eq!(dispatch.request.history[0].content, "first");
    assert_eq!(dispatch.request.history[0].sender, Sender::User);
    assert_eq!(dispatch.request.history[1].content, "reply");
    assert_eq!(dispatch.request.history[1].sender, Sender::Assistant);
    assert_eq!(dispatch.request.new_message.content, "third");
}
