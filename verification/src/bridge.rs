//! What the messaging bridge hands to the interface.

use vstd::prelude::*;

verus! {

/// A contact, as the bridge lists it.
#[derive(Debug, Clone, PartialEq, Eq)]
pub struct Contact {
    pub jid: String,
    pub name: String,
}

/// A contact as a mathematical value.
pub struct ContactView {
    pub jid: Seq<char>,
    pub name: Seq<char>,
}

impl View for Contact {
    type V = ContactView;

    open spec fn view(&self) -> ContactView {
        ContactView { jid: self.jid@, name: self.name@ }
    }
}

/// What the interface sends to the bridge when the user sends a message.
#[derive(Debug, Clone, PartialEq, Eq)]
pub struct OutgoingMessage {
    pub jid: String,
    pub text: String,
}

} // verus!
