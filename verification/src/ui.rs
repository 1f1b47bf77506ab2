//! What the chat screens show: the list of contacts and the lines of the
//! open conversation, as text ready to be drawn.

use vstd::prelude::*;
use vstd::string::*;

use crate::app::App;
use crate::chat::{ConversationView, MessageView, Platform};

verus! {

broadcast use vstd::seq_lib::group_seq_properties;

/// One entry of the contact list.
#[derive(Debug, Clone, PartialEq, Eq)]
pub struct ContactLine {
    pub platform: Platform,
    pub label: String,
}

/// One line of the open conversation.
#[derive(Debug, Clone, PartialEq, Eq)]
pub struct MessageLine {
    pub from_me: bool,
    pub text: String,
}

/// `c` belongs in a contact list restricted to `filter` (`None`: all platforms).
pub open spec fn shown_on(c: ConversationView, filter: Option<Platform>) -> bool {
    filter is None || c.platform == filter.unwrap()
}

/// The conversations a contact list restricted to `filter` shows, in order.
pub open spec fn shown_conversations(
    convs: Seq<ConversationView>,
    filter: Option<Platform>,
) -> Seq<ConversationView> {
    convs.filter(|c: ConversationView| shown_on(c, filter))
}

/// The mark before the `j`-th entry of the list: "> " when `j` is the
/// highlighted position, a space otherwise.
pub open spec fn contact_prefix(j: int, active: Option<usize>) -> Seq<char> {
    if active is Some && active.unwrap() == j {
        "> "@
    } else {
        " "@
    }
}

/// `line` shows conversation `c` at position `j` of a contact list in which
/// position `active` is highlighted.
pub open spec fn shows_contact(line: ContactLine, c: ConversationView, j: int, active: Option<usize>) -> bool {
    &&& line.platform == c.platform
    &&& line.label@ == contact_prefix(j, active) + c.user
}

/// `line` shows message `m` of a conversation with `user`.
pub open spec fn shows_message(line: MessageLine, m: MessageView, user: Seq<char>) -> bool {
    &&& line.from_me == m.from_me
    &&& line.text@ == message_text(m, user)
}

/// The text of a message line: the timestamp, then "you" or the contact's
/// name, then the content.
pub open spec fn message_text(m: MessageView, user: Seq<char>) -> Seq<char> {
    if m.from_me {
        m.timestamp + " you: "@ + m.content
    } else {
        m.timestamp + " "@ + user + ": "@ + m.content
    }
}

impl App {
    /// The contact list of a chat screen: the conversations on `filter`'s
    /// platform (all when `None`), each labelled with its mark and its user;
    /// the mark compares the position in this list with the highlighted
    /// position.
    pub fn contact_lines(&self, filter: Option<Platform>) -> (r: Vec<ContactLine>)
        ensures
            r.len() == shown_conversations(self@.conversations, filter).len(),
            forall|j: int|
                #![trigger r@[j]]
                0 <= j < r.len() ==> shows_contact(
                    r@[j],
                    shown_conversations(self@.conversations, filter)[j],
                    j,
                    self.active_conv,
                ),
    {
        let ghost convs = self@.conversations;
        let ghost pred = |c: ConversationView| shown_on(c, filter);
        let mut r: Vec<ContactLine> = Vec::new();
        let n = self.conversations.len();
        proof {
            reveal_with_fuel(Seq::filter, 1);
            assert(convs.take(0) =~= Seq::<ConversationView>::empty());
        }
        for i in 0..n
            invariant
                n == self.conversations.len(),
                convs == self@.conversations,
                pred == (|c: ConversationView| shown_on(c, filter)),
                r.len() == convs.take(i as int).filter(pred).len(),
                forall|j: int|
                    #![trigger r@[j]]
                    0 <= j < r.len() ==> shows_contact(
                        r@[j],
                        convs.take(i as int).filter(pred)[j],
                        j,
                        self.active_conv,
                    ),
        {
            let c = &self.conversations[i];
            proof {
                assert(convs.take(i + 1) =~= convs.take(i as int).push(convs[i as int]));
                convs.take(i as int).lemma_filter_push(convs[i as int], pred);
            }
            let keep = match filter {
                None => true,
                Some(p) => c.platform == p,
            };
            assert(c@ == convs[i as int]);
            assert(keep == pred(convs[i as int]));
            let ghost before = r@;
            let ghost old_shown = convs.take(i as int).filter(pred);
            if keep {
                let j = r.len();
                let is_active = match self.active_conv {
                    Some(a) => a == j,
                    None => false,
                };
                let mut label = if is_active {
                    String::from_str("> ")
                } else {
                    String::from_str(" ")
                };
                label.append(c.user.as_str());
                r.push(ContactLine { platform: c.platform, label });
                assert(convs.take(i + 1).filter(pred) == old_shown.push(convs[i as int]));
                assert forall|k: int| #![trigger r@[k]] 0 <= k < r.len() implies shows_contact(
                    r@[k],
                    convs.take(i + 1).filter(pred)[k],
                    k,
                    self.active_conv,
                ) by {
                    if k < j {
                        assert(r[k] == before[k]);
                        assert(convs.take(i + 1).filter(pred)[k] == old_shown[k]);
                    } else {
                        assert(k == j);
                        assert(old_shown.len() == j);
                        assert(convs.take(i + 1).filter(pred)[k] == convs[i as int]);
                        assert(r[k].platform == c.platform);
                        assert(c.platform == convs[i as int].platform);
                        assert(c.user@ == convs[i as int].user);
                    }
                }
            } else {
                assert(convs.take(i + 1).filter(pred) == old_shown);
            }
        }
        proof {
            assert(convs.take(n as int) =~= convs);
        }
        r
    }

    /// The lines of the highlighted conversation, one per message in order;
    /// `None` when no conversation is highlighted.
    pub fn message_lines(&self) -> (r: Option<Vec<MessageLine>>)
        requires
            self.active_conv is Some ==> self.active_conv.unwrap() < self.conversations.len(),
        ensures
            self.active_conv is None ==> r is None,
            self.active_conv is Some ==> r is Some && {
                let c = self@.conversations[self.active_conv.unwrap() as int];
                let lines = r.unwrap();
                &&& lines.len() == c.messages.len()
                &&& forall|j: int|
                    #![trigger lines@[j]]
                    0 <= j < lines.len() ==> shows_message(lines@[j], c.messages[j], c.user)
            },
    {
        let idx = match self.active_conv {
            None => return None,
            Some(i) => i,
        };
        let conv = &self.conversations[idx];
        let ghost c = self@.conversations[idx as int];
        assert(c == conv@);
        let mut lines: Vec<MessageLine> = Vec::new();
        let n = conv.messages.len();
        for j in 0..n
            invariant
                n == conv.messages.len(),
                c == conv@,
                lines.len() == j,
                forall|k: int|
                    #![trigger lines@[k]]
                    0 <= k < j ==> shows_message(lines@[k], c.messages[k], c.user),
        {
            let m = &conv.messages[j];
            assert(c.messages[j as int] == m@);
            let mut text = m.timestamp.clone();
            if m.from_me {
                text.append(" you: ");
            } else {
                text.append(" ");
                text.append(conv.user.as_str());
                text.append(": ");
            }
            text.append(m.content.as_str());
            let ghost before = lines@;
            lines.push(MessageLine { from_me: m.from_me, text });
            assert forall|k: int| #![trigger lines@[k]] 0 <= k < j + 1 implies shows_message(
                lines@[k],
                c.messages[k],
                c.user,
            ) by {
                if k < j {
                    assert(lines[k] == before[k]);
                } else {
                    assert(conv.user@ == c.user);
                }
            }
        }
        Some(lines)
    }
}

} // verus!
