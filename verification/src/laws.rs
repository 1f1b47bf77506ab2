//! Properties of the interface that span several transitions.

use vstd::prelude::*;

use crate::app::{
    event_step, is_first_with_jid, key_step, login_view, next_active, next_menu_item, prev_active,
    receive_step, key_safe, config_view, initial_view, with_screen, ActionView, AppEventView, AppView, Key, MenuItem, Screen,
};
use crate::bridge::ContactView;
use crate::chat::{ConversationView, MessageView, Platform};
use crate::ui::{shown_conversations, shown_on, shows_contact, shows_message, ContactLine, MessageLine};

verus! {

/// Moving the menu selection one way and then the other way gives back the
/// entry the selection started on.
pub proof fn menu_moves_undo(m: MenuItem, reverse: bool)
    ensures
        next_menu_item(next_menu_item(m, reverse), !reverse) == m,
{
}

/// The menu is a cycle of its four entries: four moves in one direction
/// come back to the start, and the entries passed on the way are all
/// different.
pub proof fn menu_is_a_cycle(m: MenuItem, reverse: bool)
    ensures
        ({
            let m1 = next_menu_item(m, reverse);
            let m2 = next_menu_item(m1, reverse);
            let m3 = next_menu_item(m2, reverse);
            &&& next_menu_item(m3, reverse) == m
            &&& m != m1 && m != m2 && m != m3 && m1 != m2 && m1 != m3 && m2 != m3
        }),
{
}

/// On the main menu, Left followed by Right, or Right followed by Left,
/// leaves the state as it was.
pub proof fn menu_keys_undo(s: AppView)
    requires
        s.screen == Screen::Main,
    ensures
        key_step(key_step(s, Key::Left).0, Key::Right) == (s, ActionView::Nothing),
        key_step(key_step(s, Key::Right).0, Key::Left) == (s, ActionView::Nothing),
{
}

/// In a text field (the token on the login screen, the message on a chat
/// screen), typing a character and then pressing Backspace leaves the state
/// as it was.
pub proof fn backspace_undoes_typing(s: AppView, c: char)
    requires
        s.screen == Screen::Login || s.screen == Screen::Whatsapp || s.screen == Screen::AllChats,
    ensures
        key_step(s, Key::Char(c)).1 == ActionView::Nothing,
        key_step(key_step(s, Key::Char(c)).0, Key::Backspace) == (s, ActionView::Nothing),
{
    let t = key_step(s, Key::Char(c)).0;
    if s.screen == Screen::Login {
        assert(t.token_input.drop_last() =~= s.token_input);
    } else {
        assert(t.message_input.drop_last() =~= s.message_input);
    }
    assert(key_step(t, Key::Backspace).0 =~= s);
}

/// Esc leads back to the main menu from every screen but the login screen
/// and the main menu, where it asks the program to quit and changes nothing.
pub proof fn esc_goes_back_or_quits(s: AppView)
    ensures
        (s.screen == Screen::Login || s.screen == Screen::Main) ==> key_step(s, Key::Esc) == (
            s,
            ActionView::Quit,
        ),
        !(s.screen == Screen::Login || s.screen == Screen::Main) ==> key_step(s, Key::Esc) == (
            with_screen(s, Screen::Main),
            ActionView::Nothing,
        ),
{
}

/// Moving down a non-empty conversation list always leaves a conversation
/// of the list highlighted, and moving up keeps a highlight that was within
/// the list within it.
pub proof fn highlight_stays_in_list(active: Option<usize>, len: nat)
    ensures
        len > 0 ==> next_active(active, len) is Some && next_active(active, len).unwrap() < len,
        (len > 0 && (active is None || active.unwrap() < len)) ==> prev_active(active) is Some
            && prev_active(active).unwrap() < len,
{
}

/// Within the list, moving down and then up, or up and then down, comes back
/// to the same conversation (away from the ends of the list).
pub proof fn highlight_moves_undo(i: usize, len: nat)
    requires
        len <= usize::MAX,
    ensures
        i + 1 < len ==> prev_active(next_active(Some(i), len)) == Some(i),
        0 < i < len ==> next_active(prev_active(Some(i)), len) == Some(i),
{
}

/// Enter on the login screen with a token typed asks to save exactly that
/// token and changes nothing yet; once it is saved, the token is the Discord
/// token, the input is empty and the main menu shows. With nothing typed,
/// Enter does nothing.
pub proof fn login_saves_then_opens_menu(s: AppView)
    requires
        s.screen == Screen::Login,
    ensures
        s.token_input.len() > 0 ==> key_step(s, Key::Enter) == (s, ActionView::SaveToken(s.token_input)),
        s.token_input.len() == 0 ==> key_step(s, Key::Enter) == (s, ActionView::Nothing),
        login_view(s) == (AppView {
            discord_token: s.token_input,
            token_input: Seq::empty(),
            screen: Screen::Main,
            ..s
        }),
{
}

/// Opening a menu entry always asks for the contact list; the Discord entry
/// leads to the login screen exactly when no token is known.
pub proof fn opening_an_entry(s: AppView)
    requires
        s.screen == Screen::Main,
    ensures
        key_step(s, Key::Enter).1 == ActionView::LoadContacts,
        s.selected == MenuItem::Discord ==> (key_step(s, Key::Enter).0.screen == Screen::Login
            <==> s.discord_token.len() == 0),
{
}

/// Sending what is typed on a chat screen: the input is emptied, the
/// highlighted conversation gains exactly one message at its end (the text,
/// from the user, stamped "sending..."), every other conversation and every
/// other part of the state stays as it was, and the bridge is handed the
/// text for that conversation's jid.
pub proof fn sending_appends_to_the_highlighted_conversation(s: AppView)
    requires
        s.screen == Screen::Whatsapp || s.screen == Screen::AllChats,
        s.message_input.len() > 0,
        s.active_conv is Some,
        s.active_conv.unwrap() < s.conversations.len(),
    ensures
        ({
            let (t, a) = key_step(s, Key::Enter);
            let i = s.active_conv.unwrap() as int;
            let c = s.conversations[i];
            &&& t == AppView {
                message_input: Seq::empty(),
                conversations: s.conversations.update(
                    i,
                    ConversationView {
                        platform: c.platform,
                        user: c.user,
                        messages: c.messages.push(
                            MessageView { from_me: true, content: s.message_input, timestamp: "sending..."@ },
                        ),
                        jid: c.jid,
                    },
                ),
                ..s
            }
            &&& a == ActionView::Send { jid: c.jid, text: s.message_input }
        }),
{
    let t = key_step(s, Key::Enter).0;
    let i = s.active_conv.unwrap() as int;
    let c = s.conversations[i];
    assert(t.conversations =~= s.conversations.update(
        i,
        ConversationView {
            platform: c.platform,
            user: c.user,
            messages: c.messages.push(
                MessageView { from_me: true, content: s.message_input, timestamp: "sending..."@ },
            ),
            jid: c.jid,
        },
    ));
}

/// On a chat screen, Enter with nothing typed or with no conversation
/// highlighted sends nothing and changes nothing: the typed text stays.
pub proof fn enter_without_text_or_highlight_does_nothing(s: AppView)
    requires
        s.screen == Screen::Whatsapp || s.screen == Screen::AllChats,
        s.message_input.len() == 0 || s.active_conv is None,
    ensures
        key_step(s, Key::Enter) == (s, ActionView::Nothing),
{
}

/// A received message goes to the end of the first conversation whose jid
/// is the sender's, wherever it stands in the list (the last one too), as a
/// message not sent by the user with the received text and timestamp; no
/// other conversation and no other part of the state changes.
pub proof fn received_message_goes_to_first_match(
    s: AppView,
    from: Seq<char>,
    text: Seq<char>,
    timestamp: Seq<char>,
    i: int,
)
    requires
        0 <= i < s.conversations.len(),
        s.conversations[i].jid == from,
        forall|k: int| 0 <= k < i ==> s.conversations[k].jid != from,
    ensures
        ({
            let c = s.conversations[i];
            event_step(s, AppEventView::MessageReceived { from, text, timestamp }) == AppView {
                conversations: s.conversations.update(
                    i,
                    ConversationView {
                        platform: c.platform,
                        user: c.user,
                        messages: c.messages.push(
                            MessageView { from_me: false, content: text, timestamp: timestamp },
                        ),
                        jid: c.jid,
                    },
                ),
                ..s
            }
        }),
{
    let convs = s.conversations;
    assert(is_first_with_jid(convs, from, i));
    let j = choose|j: int| is_first_with_jid(convs, from, j);
    assert(j == i) by {
        if j < i {
            assert(convs[j].jid != from);
        } else if j > i {
            assert(convs[i].jid != from);
        }
    }
    let c = convs[i];
    assert(receive_step(convs, from, text, timestamp) =~= convs.update(
        i,
        ConversationView {
            platform: c.platform,
            user: c.user,
            messages: c.messages.push(MessageView { from_me: false, content: text, timestamp: timestamp }),
            jid: c.jid,
        },
    ));
}

/// A message whose sender has no conversation is dropped: nothing changes.
pub proof fn message_from_unknown_sender_is_dropped(
    s: AppView,
    from: Seq<char>,
    text: Seq<char>,
    timestamp: Seq<char>,
)
    requires
        forall|k: int| 0 <= k < s.conversations.len() ==> s.conversations[k].jid != from,
    ensures
        event_step(s, AppEventView::MessageReceived { from, text, timestamp }) == s,
{
    assert(!exists|j: int| is_first_with_jid(s.conversations, from, j));
    assert(event_step(s, AppEventView::MessageReceived { from, text, timestamp }) =~= s);
}

/// A loaded contact list replaces the conversations by one conversation per
/// contact, in the list's order: on WhatsApp, with the contact's name as
/// user, the contact's jid, and no messages. The contact list scrolls back
/// to the top; nothing else changes.
pub proof fn loaded_contacts_become_conversations(s: AppView, cs: Seq<ContactView>)
    ensures
        ({
            let t = event_step(s, AppEventView::ContactsLoaded(cs));
            &&& t.conversations.len() == cs.len()
            &&& forall|k: int|
                0 <= k < cs.len() ==> #[trigger] t.conversations[k] == ConversationView {
                    platform: Platform::Whatsapp,
                    user: cs[k].name,
                    messages: Seq::empty(),
                    jid: cs[k].jid,
                }
            &&& t == AppView { conversations: t.conversations, contact_scroll: 0, ..s }
        }),
{
}

/// Typing a character in a text field appends exactly that character: to
/// the token on the login screen, to the message on a chat screen. Nothing
/// else changes.
pub proof fn typing_appends_the_character(s: AppView, c: char)
    ensures
        s.screen == Screen::Login ==> key_step(s, Key::Char(c)) == (
            AppView { token_input: s.token_input.push(c), ..s },
            ActionView::Nothing,
        ),
        (s.screen == Screen::Whatsapp || s.screen == Screen::AllChats) ==> key_step(s, Key::Char(c))
            == (AppView { message_input: s.message_input.push(c), ..s }, ActionView::Nothing),
{
}

/// Backspace in a text field removes its last character, and leaves an
/// empty field empty. Nothing else changes.
pub proof fn backspace_removes_the_last_character(s: AppView)
    ensures
        s.screen == Screen::Login ==> key_step(s, Key::Backspace) == (
            AppView {
                token_input: if s.token_input.len() == 0 { s.token_input } else {
                    s.token_input.subrange(0, s.token_input.len() - 1)
                },
                ..s
            },
            ActionView::Nothing,
        ),
        (s.screen == Screen::Whatsapp || s.screen == Screen::AllChats) ==> key_step(s, Key::Backspace)
            == (
            AppView {
                message_input: if s.message_input.len() == 0 { s.message_input } else {
                    s.message_input.subrange(0, s.message_input.len() - 1)
                },
                ..s
            },
            ActionView::Nothing,
        ),
{
}

/// The menu goes Chats, Discord, Whatsapp, Messages and round again: Right
/// (or 'k') moves forward, Left (or 'j') backward; 'q' and Esc quit. None of
/// these changes anything else.
pub proof fn main_menu_keys(s: AppView)
    requires
        s.screen == Screen::Main,
    ensures
        next_menu_item(MenuItem::ContinueChats, false) == MenuItem::Discord,
        next_menu_item(MenuItem::Discord, false) == MenuItem::Whatsapp,
        next_menu_item(MenuItem::Whatsapp, false) == MenuItem::Messages,
        next_menu_item(MenuItem::Messages, false) == MenuItem::ContinueChats,
        key_step(s, Key::Right) == (
            AppView { selected: next_menu_item(s.selected, false), ..s },
            ActionView::Nothing,
        ),
        key_step(s, Key::Char('k')) == key_step(s, Key::Right),
        key_step(s, Key::Left) == (
            AppView { selected: next_menu_item(s.selected, true), ..s },
            ActionView::Nothing,
        ),
        key_step(s, Key::Char('j')) == key_step(s, Key::Left),
        key_step(s, Key::Char('q')) == (s, ActionView::Quit),
        key_step(s, Key::Esc) == (s, ActionView::Quit),
{
}

/// Opening a menu entry: Chats opens the list of all chats, Whatsapp the
/// WhatsApp chats, Discord the Discord screen when a token is known and the
/// login screen otherwise, and Messages stays on the menu. Only the screen
/// changes, and the contact list is asked for in every case.
pub proof fn opening_each_entry(s: AppView)
    requires
        s.screen == Screen::Main,
    ensures
        ({
            let (t, a) = key_step(s, Key::Enter);
            &&& a == ActionView::LoadContacts
            &&& t == AppView { screen: t.screen, ..s }
            &&& s.selected == MenuItem::ContinueChats ==> t.screen == Screen::AllChats
            &&& s.selected == MenuItem::Whatsapp ==> t.screen == Screen::Whatsapp
            &&& s.selected == MenuItem::Messages ==> t.screen == Screen::Main
            &&& (s.selected == MenuItem::Discord && s.discord_token.len() > 0) ==> t.screen
                == Screen::Discord
            &&& (s.selected == MenuItem::Discord && s.discord_token.len() == 0) ==> t.screen
                == Screen::Login
        }),
{
}

/// Moving the highlight: down from no highlight highlights the first
/// conversation, down from position `i` goes to `i + 1` unless that is past
/// the end, where it goes to the last; up from no highlight highlights the
/// first, up from `i` goes to `i - 1`, stopping at the first. On a chat
/// screen Up and Down change nothing but the highlight.
pub proof fn highlight_moves(s: AppView, i: usize)
    requires
        s.conversations.len() <= usize::MAX,
    ensures
        next_active(None, s.conversations.len()) == Some(0usize),
        i + 1 < s.conversations.len() ==> next_active(Some(i), s.conversations.len()) == Some(
            (i + 1) as usize,
        ),
        (s.conversations.len() > 0 && i + 1 >= s.conversations.len()) ==> next_active(
            Some(i),
            s.conversations.len(),
        ) == Some((s.conversations.len() - 1) as usize),
        prev_active(None) == Some(0usize),
        prev_active(Some(0usize)) == Some(0usize),
        i > 0 ==> prev_active(Some(i)) == Some((i - 1) as usize),
        (s.screen == Screen::Whatsapp || s.screen == Screen::AllChats) ==> {
            &&& key_step(s, Key::Down) == (
                AppView { active_conv: next_active(s.active_conv, s.conversations.len()), ..s },
                ActionView::Nothing,
            )
            &&& key_step(s, Key::Up) == (
                AppView { active_conv: prev_active(s.active_conv), ..s },
                ActionView::Nothing,
            )
        },
{
}

/// Keys a screen does not use do nothing: on the login screen every key but
/// characters, Backspace, Esc and Enter; on the main menu every key but Esc,
/// Left, Right, Enter, 'q', 'j' and 'k'; on a chat screen Left, Right and
/// keys the interface does not tell apart.
pub proof fn unused_keys_do_nothing(s: AppView, key: Key)
    ensures
        (s.screen == Screen::Login && !(key is Char) && key != Key::Backspace && key != Key::Esc && key
            != Key::Enter) ==> key_step(s, key) == (s, ActionView::Nothing),
        (s.screen == Screen::Main && key != Key::Esc && key != Key::Left && key != Key::Right && key
            != Key::Enter && key != Key::Char('q') && key != Key::Char('j') && key != Key::Char('k'))
            ==> key_step(s, key) == (s, ActionView::Nothing),
        ((s.screen == Screen::Whatsapp || s.screen == Screen::AllChats) && (key == Key::Left || key
            == Key::Right || key == Key::Other)) ==> key_step(s, key) == (s, ActionView::Nothing),
{
}

/// On the Discord and Messages screens every key but Esc does nothing.
pub proof fn placeholder_screens_ignore_keys(s: AppView, key: Key)
    requires
        s.screen == Screen::Discord || s.screen == Screen::Messages,
        key != Key::Esc,
    ensures
        key_step(s, key) == (s, ActionView::Nothing),
{
}

/// Settings read at start-up: a saved non-empty token becomes the Discord
/// token and opens the main menu; an empty one changes nothing.
pub proof fn saved_token_logs_in(s: AppView, token: Seq<char>)
    ensures
        token.len() > 0 ==> config_view(s, token) == (AppView {
            discord_token: token,
            screen: Screen::Main,
            ..s
        }),
        token.len() == 0 ==> config_view(s, token) == s,
{
}

/// The interface starts running, on the login screen, with the Chats entry
/// selected, nothing typed, no token, no conversation and no highlight.
pub proof fn fresh_state()
    ensures
        initial_view().running,
        initial_view().screen == Screen::Login,
        initial_view().selected == MenuItem::ContinueChats,
        initial_view().token_input.len() == 0,
        initial_view().discord_token.len() == 0,
        initial_view().message_input.len() == 0,
        initial_view().conversations.len() == 0,
        initial_view().active_conv is None,
        initial_view().contact_scroll == 0,
{
}

/// A line of the contact list at position `j` shows its conversation's
/// platform, and its label is the conversation's user after "> " when `j` is
/// the highlighted position (the first position included) and after a space
/// otherwise; so the only marked line is the highlighted one.
pub proof fn contact_line_marks_only_the_highlight(
    line: ContactLine,
    c: ConversationView,
    j: int,
    active: Option<usize>,
)
    requires
        0 <= j <= usize::MAX,
        shows_contact(line, c, j, active),
    ensures
        line.platform == c.platform,
        active == Some(j as usize) ==> line.label@ == "> "@ + c.user,
        active != Some(j as usize) ==> line.label@ == " "@ + c.user,
{
}

/// The contact list of a chat screen holds every conversation when no
/// platform is chosen; otherwise it holds only conversations of the chosen
/// platform, taken from the list, and every conversation of that platform.
pub proof fn contact_list_shows_the_chosen_platform(convs: Seq<ConversationView>, p: Platform)
    ensures
        shown_conversations(convs, None) == convs,
        forall|k: int|
            0 <= k < shown_conversations(convs, Some(p)).len() ==> {
                &&& (#[trigger] shown_conversations(convs, Some(p))[k]).platform == p
                &&& convs.contains(shown_conversations(convs, Some(p))[k])
            },
        forall|k: int|
            0 <= k < convs.len() && (#[trigger] convs[k]).platform == p ==> shown_conversations(
                convs,
                Some(p),
            ).contains(convs[k]),
{
    let pred = |c: ConversationView| shown_on(c, None);
    lemma_filter_everything(convs, pred);
    let q = |c: ConversationView| shown_on(c, Some(p));
    assert forall|k: int| 0 <= k < convs.filter(q).len() implies {
        &&& (#[trigger] convs.filter(q)[k]).platform == p
        &&& convs.contains(convs.filter(q)[k])
    } by {
        convs.lemma_filter_pred(q, k);
        convs.lemma_filter_contains_rev(q, convs.filter(q)[k]);
    }
    assert forall|k: int| 0 <= k < convs.len() && (#[trigger] convs[k]).platform == p implies convs.filter(
        q,
    ).contains(convs[k]) by {
        convs.lemma_filter_contains(q, k);
    }
}

/// The contact list on a platform is built in the list's order: an empty
/// list shows nothing, and a conversation added at the end of the list is
/// added at the end of the shown list when it is on the platform, and
/// changes nothing otherwise.
pub proof fn contact_list_keeps_the_order(convs: Seq<ConversationView>, c: ConversationView, p: Platform)
    ensures
        shown_conversations(Seq::empty(), Some(p)).len() == 0,
        c.platform == p ==> shown_conversations(convs.push(c), Some(p)) == shown_conversations(
            convs,
            Some(p),
        ).push(c),
        c.platform != p ==> shown_conversations(convs.push(c), Some(p)) == shown_conversations(
            convs,
            Some(p),
        ),
{
    let q = |x: ConversationView| shown_on(x, Some(p));
    reveal_with_fuel(Seq::filter, 1);
    convs.lemma_filter_push(c, q);
}

/// Filtering with a condition that every element meets keeps the sequence.
proof fn lemma_filter_everything(s: Seq<ConversationView>, pred: spec_fn(ConversationView) -> bool)
    requires
        forall|c: ConversationView| #[trigger] pred(c),
    ensures
        s.filter(pred) == s,
    decreases s.len(),
{
    reveal(Seq::filter);
    if s.len() > 0 {
        lemma_filter_everything(s.drop_last(), pred);
        assert(s.drop_last().push(s.last()) =~= s);
    }
}

/// A line of an open conversation shows who sent the message, and its text
/// is the timestamp followed by " you: " and the content for the user's own
/// messages, or by a space, the contact's name, ": " and the content.
pub proof fn message_line_text(line: MessageLine, m: MessageView, user: Seq<char>)
    requires
        shows_message(line, m, user),
    ensures
        line.from_me == m.from_me,
        m.from_me ==> line.text@ == m.timestamp + " you: "@ + m.content,
        !m.from_me ==> line.text@ == m.timestamp + " "@ + user + ": "@ + m.content,
{
}

/// No key press stops the interface, changes the Discord token, or adds,
/// removes, reorders or renames a conversation; only the messages of the
/// highlighted conversation can grow (by sending).
pub proof fn keys_keep_the_conversation_list(s: AppView, key: Key)
    requires
        key_safe(s, key),
    ensures
        ({
            let t = key_step(s, key).0;
            &&& t.running == s.running
            &&& t.discord_token == s.discord_token
            &&& t.contact_scroll == s.contact_scroll
            &&& t.conversations.len() == s.conversations.len()
            &&& forall|k: int|
                #![trigger t.conversations[k]]
                0 <= k < s.conversations.len() ==> {
                    &&& t.conversations[k].jid == s.conversations[k].jid
                    &&& t.conversations[k].user == s.conversations[k].user
                    &&& t.conversations[k].platform == s.conversations[k].platform
                    &&& t.conversations[k].messages.len() >= s.conversations[k].messages.len()
                }
        }),
{
}

/// Once the Quit event is handled the interface stops running, and nothing
/// else about it changes.
pub proof fn quit_stops(s: AppView)
    ensures
        !event_step(s, AppEventView::Quit).running,
        event_step(s, AppEventView::Quit) == (AppView { running: false, ..s }),
{
}

} // verus!
