use vstd::prelude::*;
use vstd::string::StringExecFns;

use crate::chat::{Sender, TransportMessage};

verus! {

/// A successful reply from the assistant gateway: the generated text and
/// the second (since the epoch) at which it arrived.
#[derive(Debug, Clone)]
pub struct Response {
    pub content: String,
    pub timestamp: u64,
}

/// The role a prompt line is attributed to when the gateway is called.
#[derive(Debug, Clone, Copy, PartialEq, Eq, Structural)]
pub enum Role {
    System,
    User,
    Assistant,
}

/// One line of the prompt handed to the gateway.
#[derive(Debug, Clone)]
pub struct PromptMessage {
    pub role: Role,
    pub content: String,
}

/// Mathematical model of a `PromptMessage`.
#[verifier::ext_equal]
pub ghost struct PromptView {
    pub role: Role,
    pub content: Seq<char>,
}

impl View for PromptMessage {
    type V = PromptView;

    open spec fn view(&self) -> PromptView {
        PromptView { role: self.role, content: self.content@ }
    }
}

/// The instruction line that opens every prompt.
pub open spec fn spec_system_prompt() -> Seq<char> {
    "You are a helpful AI assistant. Be concise and clear in your responses."@
}

/// The role under which a past message reappears in the prompt.
pub open spec fn role_of(sender: Sender) -> Role {
    match sender {
        Sender::User => Role::User,
        Sender::Assistant => Role::Assistant,
    }
}

fn system_prompt() -> (s: &'static str)
    ensures
        s@ == spec_system_prompt(),
{
    "You are a helpful AI assistant. Be concise and clear in your responses."
}

/// Assembles the prompt for one gateway call: the fixed system
/// instruction, then the prior history with each message under its
/// sender's role, then the newly submitted message as a user line.
pub fn build_prompt(history: &Vec<TransportMessage>, new_message: TransportMessage) -> (prompt: Vec<
    PromptMessage,
>)
    ensures
        prompt@.len() == history@.len() + 2,
        prompt@[0]@ == (PromptView { role: Role::System, content: spec_system_prompt() }),
        forall|i: int|
            0 <= i < history@.len() ==> prompt@[i + 1]@ == (PromptView {
                role: role_of(history@[i]@.sender),
                content: history@[i]@.content,
            }),
        prompt@[history@.len() as int + 1]@ == (PromptView {
            role: Role::User,
            content: new_message@.content,
        }),
{
    let mut prompt: Vec<PromptMessage> = Vec::new();
    prompt.push(PromptMessage { role: Role::System, content: system_prompt().to_owned() });
    let mut i: usize = 0;
    while i < history.len()
        invariant
            i <= history@.len(),
            prompt@.len() == i + 1,
            prompt@[0]@ == (PromptView { role: Role::System, content: spec_system_prompt() }),
            forall|j: int|
                0 <= j < i ==> prompt@[j + 1]@ == (PromptView {
                    role: role_of(history@[j]@.sender),
                    content: history@[j]@.content,
                }),
        decreases history@.len() - i,
    {
        let message = &history[i];
        let role = match message.sender {
            Sender::User => Role::User,
            Sender::Assistant => Role::Assistant,
        };
        prompt.push(PromptMessage { role, content: message.content.clone() });
        i = i + 1;
    }
    prompt.push(PromptMessage { role: Role::User, content: new_message.content });
    prompt
}

/// Turns the content extracted from a gateway reply into the result the
/// session sees: a reply stamped with its arrival time, or the fixed
/// failure text when the reply carried no content.
pub fn finish_response(content: Option<String>, now: u64) -> (r: Result<Response, String>)
    ensures
        content matches Some(text) ==> (r matches Ok(resp) && resp.content == text
            && resp.timestamp == now),
        content is None ==> (r matches Err(e) && e@ == "No content in OpenAI response"@),
{
    match content {
        Some(text) => Ok(Response { content: text, timestamp: now }),
        None => Err("No content in OpenAI response".to_owned()),
    }
}

/// The visible text for a request that could not be built.
pub fn build_failure(detail: String) -> (t: String)
    ensures
        t@ == "Failed to build request: "@ + detail@,
{
    "Failed to build request: ".to_owned().concat(detail.as_str())
}

/// The visible text for a failure to reach the gateway.
pub fn transport_failure(detail: String) -> (t: String)
    ensures
        t@ == "Failed to communicate with OpenAI: "@ + detail@,
{
    "Failed to communicate with OpenAI: ".to_owned().concat(detail.as_str())
}

} // verus!
