//! Conversations and the messages in them.

use vstd::prelude::*;

verus! {

/// The messaging service a conversation belongs to.
#[derive(Debug, Clone, Copy, PartialEq, Eq, Structural)]
pub enum Platform {
    Whatsapp,
    Discord,
    Messages,
}

/// One message of a conversation.
#[derive(Debug, Clone, PartialEq, Eq)]
pub struct Message {
    pub from_me: bool,
    pub content: String,
    pub timestamp: String,
}

/// A conversation with one contact.
#[derive(Debug, Clone, PartialEq, Eq)]
pub struct Conversation {
    pub platform: Platform,
    pub user: String,
    pub messages: Vec<Message>,
    pub jid: String,
}

/// A message as a mathematical value.
pub struct MessageView {
    pub from_me: bool,
    pub content: Seq<char>,
    pub timestamp: Seq<char>,
}

/// A conversation as a mathematical value.
pub struct ConversationView {
    pub platform: Platform,
    pub user: Seq<char>,
    pub messages: Seq<MessageView>,
    pub jid: Seq<char>,
}

impl View for Message {
    type V = MessageView;

    open spec fn view(&self) -> MessageView {
        MessageView { from_me: self.from_me, content: self.content@, timestamp: self.timestamp@ }
    }
}

impl View for Conversation {
    type V = ConversationView;

    open spec fn view(&self) -> ConversationView {
        ConversationView {
            platform: self.platform,
            user: self.user@,
            messages: self.messages@.map_values(|m: Message| m@),
            jid: self.jid@,
        }
    }
}

/// The views of a list of conversations.
pub open spec fn conversations_view(convs: Seq<Conversation>) -> Seq<ConversationView> {
    convs.map_values(|c: Conversation| c@)
}

} // verus!
