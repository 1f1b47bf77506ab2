//! The state of the interface and every transition it takes.

use vstd::prelude::*;
use vstd::string::*;

use crate::bridge::{Contact, ContactView, OutgoingMessage};
use crate::chat::{conversations_view, Conversation, ConversationView, Message, MessageView, Platform};
use crate::config::Config;
use crate::text::{pop_char, push_char};

verus! {

/// The screen the interface shows.
#[derive(Debug, Clone, Copy, PartialEq, Eq, Structural)]
pub enum Screen {
    Login,
    Main,
    Discord,
    Whatsapp,
    Messages,
    AllChats,
}

/// An entry of the main menu.
#[derive(Debug, Clone, Copy, PartialEq, Eq, Structural)]
pub enum MenuItem {
    ContinueChats,
    Discord,
    Whatsapp,
    Messages,
}

/// A key press, as far as the interface tells keys apart.
#[derive(Debug, Clone, Copy, PartialEq, Eq, Structural)]
pub enum Key {
    Char(char),
    Backspace,
    Enter,
    Esc,
    Left,
    Right,
    Up,
    Down,
    Other,
}

/// What the program around the state has to do after a transition.
#[derive(Debug, Clone, PartialEq, Eq)]
pub enum Action {
    /// Nothing beyond the change of state.
    Nothing,
    /// Ask the event loop to stop (it answers with `AppEvent::Quit`).
    Quit,
    /// Save this token in the settings file, then call `complete_login`.
    SaveToken(String),
    /// Ask the bridge for the contact list (it answers with `AppEvent::ContactsLoaded`).
    LoadContacts,
    /// Hand this message to the bridge.
    Send(OutgoingMessage),
}

/// An event that arrives from the event loop or from the bridge.
#[derive(Debug, Clone, PartialEq, Eq)]
pub enum AppEvent {
    Quit,
    ContactsLoaded(Vec<Contact>),
    MessageReceived { from: String, text: String, timestamp: String },
}

/// The whole state of the interface.
#[derive(Debug)]
pub struct App {
    pub running: bool,
    pub screen: Screen,
    pub token_input: String,
    pub discord_token: String,
    pub selected: MenuItem,
    pub conversations: Vec<Conversation>,
    pub active_conv: Option<usize>,
    pub message_input: String,
    pub contact_scroll: usize,
}

/// The state of the interface as a mathematical value.
pub struct AppView {
    pub running: bool,
    pub screen: Screen,
    pub token_input: Seq<char>,
    pub discord_token: Seq<char>,
    pub selected: MenuItem,
    pub conversations: Seq<ConversationView>,
    pub active_conv: Option<usize>,
    pub message_input: Seq<char>,
    pub contact_scroll: usize,
}

/// An action as a mathematical value.
pub enum ActionView {
    Nothing,
    Quit,
    SaveToken(Seq<char>),
    LoadContacts,
    Send { jid: Seq<char>, text: Seq<char> },
}

/// An event as a mathematical value.
pub enum AppEventView {
    Quit,
    ContactsLoaded(Seq<ContactView>),
    MessageReceived { from: Seq<char>, text: Seq<char>, timestamp: Seq<char> },
}

impl View for App {
    type V = AppView;

    open spec fn view(&self) -> AppView {
        AppView {
            running: self.running,
            screen: self.screen,
            token_input: self.token_input@,
            discord_token: self.discord_token@,
            selected: self.selected,
            conversations: conversations_view(self.conversations@),
            active_conv: self.active_conv,
            message_input: self.message_input@,
            contact_scroll: self.contact_scroll,
        }
    }
}

impl View for Action {
    type V = ActionView;

    open spec fn view(&self) -> ActionView {
        match self {
            Action::Nothing => ActionView::Nothing,
            Action::Quit => ActionView::Quit,
            Action::SaveToken(t) => ActionView::SaveToken(t@),
            Action::LoadContacts => ActionView::LoadContacts,
            Action::Send(m) => ActionView::Send { jid: m.jid@, text: m.text@ },
        }
    }
}

impl View for AppEvent {
    type V = AppEventView;

    open spec fn view(&self) -> AppEventView {
        match self {
            AppEvent::Quit => AppEventView::Quit,
            AppEvent::ContactsLoaded(cs) => AppEventView::ContactsLoaded(
                cs@.map_values(|c: Contact| c@),
            ),
            AppEvent::MessageReceived { from, text, timestamp } => AppEventView::MessageReceived {
                from: from@,
                text: text@,
                timestamp: timestamp@,
            },
        }
    }
}

/// The state the interface starts in: running, on the login screen, with
/// the first menu entry selected and nothing typed or loaded.
pub open spec fn initial_view() -> AppView {
    AppView {
        running: true,
        screen: Screen::Login,
        token_input: Seq::empty(),
        discord_token: Seq::empty(),
        selected: MenuItem::ContinueChats,
        conversations: Seq::empty(),
        active_conv: None,
        message_input: Seq::empty(),
        contact_scroll: 0,
    }
}

/// The menu entry after `m`, going round the menu
/// (Chats, Discord, Whatsapp, Messages) forwards, or backwards when `reverse`.
pub open spec fn next_menu_item(m: MenuItem, reverse: bool) -> MenuItem {
    match m {
        MenuItem::ContinueChats => if reverse { MenuItem::Messages } else { MenuItem::Discord },
        MenuItem::Discord => if reverse { MenuItem::ContinueChats } else { MenuItem::Whatsapp },
        MenuItem::Whatsapp => if reverse { MenuItem::Discord } else { MenuItem::Messages },
        MenuItem::Messages => if reverse { MenuItem::Whatsapp } else { MenuItem::ContinueChats },
    }
}

/// The highlighted conversation after moving down a list of `len`
/// conversations: the first one when none was highlighted, else the next one,
/// stopping at the last (at 0 when the list is empty).
pub open spec fn next_active(active: Option<usize>, len: nat) -> Option<usize> {
    let last: int = if len == 0 { 0 } else { len - 1 };
    match active {
        None => Some(0usize),
        Some(i) => Some((if i + 1 < last { i + 1 } else { last }) as usize),
    }
}

/// The highlighted conversation after moving up: the first one when none was
/// highlighted, else the one before, stopping at the first.
pub open spec fn prev_active(active: Option<usize>) -> Option<usize> {
    match active {
        None => Some(0usize),
        Some(i) => Some((if i == 0 { 0 } else { i - 1 }) as usize),
    }
}

/// The view with another highlighted conversation.
pub open spec fn with_active(s: AppView, active: Option<usize>) -> AppView {
    AppView { active_conv: active, ..s }
}

/// The view on another screen.
pub open spec fn with_screen(s: AppView, screen: Screen) -> AppView {
    AppView { screen: screen, ..s }
}

/// The screen that opening the selected menu entry leads to: the Discord
/// entry asks for a token first when none is known, the Messages entry
/// stays where it is.
pub open spec fn select_current_view(s: AppView) -> AppView {
    match s.selected {
        MenuItem::Discord => with_screen(
            s,
            if s.discord_token.len() == 0 { Screen::Login } else { Screen::Discord },
        ),
        MenuItem::Whatsapp => with_screen(s, Screen::Whatsapp),
        MenuItem::Messages => s,
        MenuItem::ContinueChats => with_screen(s, Screen::AllChats),
    }
}

/// The timestamp a message carries until the bridge has sent it.
pub open spec fn sending_stamp() -> Seq<char> {
    "sending..."@
}

/// Sending is defined on `s`: nothing typed, nothing highlighted, or the
/// highlighted conversation exists.
pub open spec fn send_safe(s: AppView) -> bool {
    s.message_input.len() == 0 || s.active_conv is None || s.active_conv.unwrap()
        < s.conversations.len()
}

/// The conversation `c` with one more message at its end.
pub open spec fn with_message(c: ConversationView, m: MessageView) -> ConversationView {
    ConversationView { messages: c.messages.push(m), ..c }
}

/// Sending what is typed: when something is typed and a conversation is
/// highlighted, the text is cleared from the input, shown at once at the end
/// of that conversation as sent by the user and stamped "sending...", and
/// handed to the bridge with that conversation's jid. Otherwise nothing.
pub open spec fn send_step(s: AppView) -> (AppView, ActionView) {
    if s.message_input.len() == 0 || s.active_conv is None {
        (s, ActionView::Nothing)
    } else {
        let i = s.active_conv.unwrap() as int;
        let c = s.conversations[i];
        let m = MessageView { from_me: true, content: s.message_input, timestamp: sending_stamp() };
        (
            AppView {
                message_input: Seq::empty(),
                conversations: s.conversations.update(i, with_message(c, m)),
                ..s
            },
            ActionView::Send { jid: c.jid, text: s.message_input },
        )
    }
}

/// A key is handled without fault on `s`: only Enter on a chat screen sends,
/// and sending must be defined.
pub open spec fn key_safe(s: AppView, key: Key) -> bool {
    (key == Key::Enter && (s.screen == Screen::Whatsapp || s.screen == Screen::AllChats)) ==> send_safe(s)
}

/// What a key press does on each screen.
pub open spec fn key_step(s: AppView, key: Key) -> (AppView, ActionView) {
    match s.screen {
        Screen::Login => match key {
            Key::Char(c) => (AppView { token_input: s.token_input.push(c), ..s }, ActionView::Nothing),
            Key::Backspace => (
                AppView {
                    token_input: if s.token_input.len() == 0 { s.token_input } else { s.token_input.drop_last() },
                    ..s
                },
                ActionView::Nothing,
            ),
            Key::Esc => (s, ActionView::Quit),
            Key::Enter => if s.token_input.len() > 0 {
                (s, ActionView::SaveToken(s.token_input))
            } else {
                (s, ActionView::Nothing)
            },
            _ => (s, ActionView::Nothing),
        },
        Screen::Main => match key {
            Key::Esc | Key::Char('q') => (s, ActionView::Quit),
            Key::Left | Key::Char('j') => (
                AppView { selected: next_menu_item(s.selected, true), ..s },
                ActionView::Nothing,
            ),
            Key::Right | Key::Char('k') => (
                AppView { selected: next_menu_item(s.selected, false), ..s },
                ActionView::Nothing,
            ),
            Key::Enter => (select_current_view(s), ActionView::LoadContacts),
            _ => (s, ActionView::Nothing),
        },
        Screen::Discord | Screen::Messages => if key == Key::Esc {
            (with_screen(s, Screen::Main), ActionView::Nothing)
        } else {
            (s, ActionView::Nothing)
        },
        Screen::Whatsapp | Screen::AllChats => match key {
            Key::Esc => (with_screen(s, Screen::Main), ActionView::Nothing),
            Key::Up => (with_active(s, prev_active(s.active_conv)), ActionView::Nothing),
            Key::Down => (
                with_active(s, next_active(s.active_conv, s.conversations.len())),
                ActionView::Nothing,
            ),
            Key::Enter => send_step(s),
            Key::Char(c) => (AppView { message_input: s.message_input.push(c), ..s }, ActionView::Nothing),
            Key::Backspace => (
                AppView {
                    message_input: if s.message_input.len() == 0 { s.message_input } else { s.message_input.drop_last() },
                    ..s
                },
                ActionView::Nothing,
            ),
            _ => (s, ActionView::Nothing),
        },
    }
}

/// Once the typed token is saved: it becomes the Discord token, the input is
/// cleared and the main menu shows.
pub open spec fn login_view(s: AppView) -> AppView {
    AppView {
        discord_token: s.token_input,
        token_input: Seq::empty(),
        screen: Screen::Main,
        ..s
    }
}

/// A conversation for each contact, on WhatsApp and without messages, in the
/// order of the list.
pub open spec fn conversations_of(cs: Seq<ContactView>) -> Seq<ConversationView> {
    cs.map_values(
        |c: ContactView|
            ConversationView {
                platform: Platform::Whatsapp,
                user: c.name,
                messages: Seq::empty(),
                jid: c.jid,
            },
    )
}

/// `i` is the first position in `convs` of a conversation with this jid.
pub open spec fn is_first_with_jid(convs: Seq<ConversationView>, jid: Seq<char>, i: int) -> bool {
    &&& 0 <= i < convs.len()
    &&& convs[i].jid == jid
    &&& forall|k: int| 0 <= k < i ==> convs[k].jid != jid
}

/// The received message goes to the end of the first conversation with the
/// sender's jid, as not sent by the user; when there is none it is dropped.
pub open spec fn receive_step(
    convs: Seq<ConversationView>,
    from: Seq<char>,
    text: Seq<char>,
    timestamp: Seq<char>,
) -> Seq<ConversationView> {
    if exists|i: int| is_first_with_jid(convs, from, i) {
        let i = choose|i: int| is_first_with_jid(convs, from, i);
        convs.update(
            i,
            with_message(convs[i], MessageView { from_me: false, content: text, timestamp: timestamp }),
        )
    } else {
        convs
    }
}

/// What an event from the event loop or the bridge does.
pub open spec fn event_step(s: AppView, e: AppEventView) -> AppView {
    match e {
        AppEventView::Quit => AppView { running: false, ..s },
        AppEventView::ContactsLoaded(cs) => AppView {
            conversations: conversations_of(cs),
            contact_scroll: 0,
            ..s
        },
        AppEventView::MessageReceived { from, text, timestamp } => AppView {
            conversations: receive_step(s.conversations, from, text, timestamp),
            ..s
        },
    }
}

/// Settings read at start-up: a saved non-empty token logs in directly.
pub open spec fn config_view(s: AppView, token: Seq<char>) -> AppView {
    if token.len() > 0 {
        AppView { discord_token: token, screen: Screen::Main, ..s }
    } else {
        s
    }
}

impl Default for App {
    fn default() -> (r: Self)
        ensures
            r@ == initial_view(),
    {
        let r = App {
            running: true,
            screen: Screen::Login,
            token_input: String::new(),
            discord_token: String::new(),
            selected: MenuItem::ContinueChats,
            conversations: Vec::new(),
            active_conv: None,
            message_input: String::new(),
            contact_scroll: 0,
        };
        assert(r@.conversations =~= Seq::<ConversationView>::empty());
        r
    }
}

impl App {
    /// A fresh interface state.
    pub fn new() -> (r: Self)
        ensures
            r@ == initial_view(),
    {
        Self::default()
    }

    /// Highlights the next conversation (see `next_active`).
    pub fn next_conv(&mut self)
        ensures
            final(self)@ == with_active(old(self)@, next_active(old(self)@.active_conv, old(self)@.conversations.len())),
    {
        let max = self.conversations.len().saturating_sub(1);
        let next: usize = match self.active_conv {
            None => 0,
            Some(i) => if i < max { i + 1 } else { max },
        };
        self.active_conv = Some(next);
    }

    /// Highlights the previous conversation (see `prev_active`).
    pub fn prev_conv(&mut self)
        ensures
            final(self)@ == with_active(old(self)@, prev_active(old(self)@.active_conv)),
    {
        let prev: usize = match self.active_conv {
            None => 0,
            Some(i) => i.saturating_sub(1),
        };
        self.active_conv = Some(prev);
    }

    /// Moves the menu selection one entry forwards, or backwards when `reverse`.
    pub fn select_menu_item(&mut self, reverse: bool)
        ensures
            final(self)@ == (AppView { selected: next_menu_item(old(self)@.selected, reverse), ..old(self)@ }),
    {
        self.selected = match self.selected {
            MenuItem::ContinueChats => if reverse { MenuItem::Messages } else { MenuItem::Discord },
            MenuItem::Discord => if reverse { MenuItem::ContinueChats } else { MenuItem::Whatsapp },
            MenuItem::Whatsapp => if reverse { MenuItem::Discord } else { MenuItem::Messages },
            MenuItem::Messages => if reverse { MenuItem::Whatsapp } else { MenuItem::ContinueChats },
        };
    }

    /// Opens the selected menu entry. The contact list is asked for whatever
    /// the entry is.
    pub fn select_current(&mut self) -> (act: Action)
        ensures
            final(self)@ == select_current_view(old(self)@),
            act@ == ActionView::LoadContacts,
    {
        match self.selected {
            MenuItem::Discord => {
                if self.discord_token.as_str().is_empty() {
                    self.screen = Screen::Login;
                } else {
                    self.screen = Screen::Discord;
                }
            },
            MenuItem::Whatsapp => self.screen = Screen::Whatsapp,
            MenuItem::Messages => {},
            MenuItem::ContinueChats => self.screen = Screen::AllChats,
        }
        Action::LoadContacts
    }

    /// Stops the event loop at its next turn.
    pub fn quit(&mut self)
        ensures
            final(self)@ == (AppView { running: false, ..old(self)@ }),
    {
        self.running = false;
    }
    /// Sends what is typed to the highlighted conversation (see `send_step`).
    pub fn send_current_message(&mut self) -> (act: Action)
        requires
            send_safe(old(self)@),
        ensures
            (final(self)@, act@) == send_step(old(self)@),
    {
        if self.message_input.as_str().is_empty() {
            return Action::Nothing;
        }
        let idx = match self.active_conv {
            Some(i) => i,
            None => return Action::Nothing,
        };
        let ghost old_convs = self.conversations@;
        let jid = self.conversations[idx].jid.clone();
        let text = self.message_input.clone();
        self.message_input = String::new();
        let msg = Message {
            from_me: true,
            content: text.clone(),
            timestamp: String::from_str("sending..."),
        };
        self.conversations[idx].messages.push(msg);
        proof {
            let i = idx as int;
            let c = conversations_view(old_convs)[i];
            let m = MessageView { from_me: true, content: text@, timestamp: sending_stamp() };
            assert(self.conversations@[i].messages@.map_values(|m: Message| m@)
                =~= c.messages.push(m));
            assert(conversations_view(self.conversations@)
                =~= conversations_view(old_convs).update(i, with_message(c, m)));
        }
        Action::Send(OutgoingMessage { jid, text })
    }

    /// Handles one key press on the current screen (see `key_step`).
    pub fn handle_key_events(&mut self, key: Key) -> (act: Action)
        requires
            key_safe(old(self)@, key),
        ensures
            (final(self)@, act@) == key_step(old(self)@, key),
    {
        match self.screen {
            Screen::Login => match key {
                Key::Char(c) => {
                    push_char(&mut self.token_input, c);
                    Action::Nothing
                },
                Key::Backspace => {
                    pop_char(&mut self.token_input);
                    Action::Nothing
                },
                Key::Esc => Action::Quit,
                Key::Enter => {
                    if self.token_input.as_str().is_empty() {
                        Action::Nothing
                    } else {
                        Action::SaveToken(self.token_input.clone())
                    }
                },
                _ => Action::Nothing,
            },
            Screen::Main => match key {
                Key::Esc => Action::Quit,
                Key::Char('q') => Action::Quit,
                Key::Left | Key::Char('j') => {
                    self.select_menu_item(true);
                    Action::Nothing
                },
                Key::Right | Key::Char('k') => {
                    self.select_menu_item(false);
                    Action::Nothing
                },
                Key::Enter => self.select_current(),
                _ => Action::Nothing,
            },
            Screen::Discord | Screen::Messages => {
                if key == Key::Esc {
                    self.screen = Screen::Main;
                }
                Action::Nothing
            },
            Screen::Whatsapp | Screen::AllChats => match key {
                Key::Esc => {
                    self.screen = Screen::Main;
                    Action::Nothing
                },
                Key::Up => {
                    self.prev_conv();
                    Action::Nothing
                },
                Key::Down => {
                    self.next_conv();
                    Action::Nothing
                },
                Key::Enter => self.send_current_message(),
                Key::Char(c) => {
                    push_char(&mut self.message_input, c);
                    Action::Nothing
                },
                Key::Backspace => {
                    pop_char(&mut self.message_input);
                    Action::Nothing
                },
                _ => Action::Nothing,
            },
        }
    }

    /// Finishes a login once the token that `SaveToken` named is saved (see
    /// `login_view`).
    pub fn complete_login(&mut self)
        ensures
            final(self)@ == login_view(old(self)@),
    {
        self.discord_token = self.token_input.clone();
        self.token_input = String::new();
        self.screen = Screen::Main;
    }

    /// Takes over the settings read at start-up (see `config_view`).
    pub fn apply_config(&mut self, config: Config)
        ensures
            final(self)@ == config_view(old(self)@, config.discord_token@),
    {
        if !config.discord_token.as_str().is_empty() {
            self.discord_token = config.discord_token;
            self.screen = Screen::Main;
        }
    }

    /// Handles one event from the event loop or the bridge (see `event_step`).
    pub fn handle_app_event(&mut self, event: AppEvent)
        ensures
            final(self)@ == event_step(old(self)@, event@),
    {
        match event {
            AppEvent::Quit => self.quit(),
            AppEvent::ContactsLoaded(contacts) => {
                self.conversations = conversations_from_contacts(&contacts);
                self.contact_scroll = 0;
            },
            AppEvent::MessageReceived { from, text, timestamp } => {
                self.receive_message(from, text, timestamp);
            },
        }
    }

    /// Appends a received message to the first conversation with the
    /// sender's jid (see `receive_step`).
    fn receive_message(&mut self, from: String, text: String, timestamp: String)
        ensures
            final(self)@ == (AppView {
                conversations: receive_step(old(self)@.conversations, from@, text@, timestamp@),
                ..old(self)@
            }),
    {
        let ghost convs = conversations_view(self.conversations@);
        let n = self.conversations.len();
        let mut i: usize = 0;
        while i < n
            invariant
                n == self.conversations.len(),
                i <= n,
                self@ == old(self)@,
                convs == old(self)@.conversations,
                forall|k: int| 0 <= k < i ==> convs[k].jid != from@,
            decreases n - i,
        {
            if self.conversations[i].jid == from {
                let ghost old_convs = self.conversations@;
                let m = Message { from_me: false, content: text, timestamp };
                self.conversations[i].messages.push(m);
                proof {
                    let ii = i as int;
                    let mv = MessageView { from_me: false, content: m.content@, timestamp: m.timestamp@ };
                    assert(is_first_with_jid(convs, from@, ii));
                    let j = choose|j: int| is_first_with_jid(convs, from@, j);
                    assert(j == ii) by {
                        if j < ii {
                            assert(convs[j].jid != from@);
                        } else if j > ii {
                            assert(convs[ii].jid != from@);
                        }
                    }
                    assert(self.conversations@[ii].messages@.map_values(|m: Message| m@)
                        =~= convs[ii].messages.push(mv));
                    assert(conversations_view(self.conversations@)
                        =~= convs.update(ii, with_message(convs[ii], mv)));
                }
                return;
            }
            i += 1;
        }
        assert(!exists|j: int| is_first_with_jid(convs, from@, j));
    }
}

/// A conversation for each contact (see `conversations_of`).
fn conversations_from_contacts(contacts: &Vec<Contact>) -> (r: Vec<Conversation>)
    ensures
        conversations_view(r@) == conversations_of(contacts@.map_values(|c: Contact| c@)),
{
    let mut r: Vec<Conversation> = Vec::new();
    let n = contacts.len();
    for i in 0..n
        invariant
            n == contacts.len(),
            r.len() == i,
            forall|k: int| 0 <= k < i ==> #[trigger] conversations_view(r@)[k]
                == conversations_of(contacts@.map_values(|c: Contact| c@))[k],
    {
        let ghost before = r@;
        r.push(Conversation {
            platform: Platform::Whatsapp,
            user: contacts[i].name.clone(),
            messages: Vec::new(),
            jid: contacts[i].jid.clone(),
        });
        proof {
            assert(r@[i as int].messages@.map_values(|m: Message| m@) =~= Seq::<MessageView>::empty());
            assert forall|k: int| 0 <= k < i + 1 implies #[trigger] conversations_view(r@)[k]
                == conversations_of(contacts@.map_values(|c: Contact| c@))[k] by {
                if k < i {
                    assert(r@[k] == before[k]);
                    assert(conversations_view(before)[k] == conversations_of(contacts@.map_values(|c: Contact| c@))[k]);
                    assert(conversations_view(r@)[k] == conversations_view(before)[k]);
                } else {
                    let cv = contacts@.map_values(|c: Contact| c@)[k];
                    assert(cv == contacts@[k]@);
                    assert(conversations_view(r@)[k] == r@[k]@);
                    assert(r@[k].user@ == cv.name);
                    assert(r@[k].jid@ == cv.jid);
                    assert(r@[k].platform == Platform::Whatsapp);
                    assert(conversations_of(contacts@.map_values(|c: Contact| c@))[k] == (ConversationView {
                        platform: Platform::Whatsapp,
                        user: cv.name,
                        messages: Seq::empty(),
                        jid: cv.jid,
                    }));
                }
            }
        }
    }
    assert(conversations_view(r@) =~= conversations_of(contacts@.map_values(|c: Contact| c@)));
    r
}

} // verus!
