use seep::app::{Action, App, AppEvent, Key, MenuItem, Screen};
use seep::bridge::{Contact, OutgoingMessage};
use seep::chat::{Conversation, Message, Platform};
use seep::config::Config;

fn conv(platform: Platform, user: &str, jid: &str) -> Conversation {
    Conversation { platform, user: user.to_string(), messages: vec![], jid: jid.to_string() }
}

fn app_with(convs: Vec<Conversation>) -> App {
    let mut app = App::new();
    app.conversations = convs;
    app
}

fn three() -> App {
    app_with(vec![
        conv(Platform::Whatsapp, "Ann", "1@s"),
        conv(Platform::Discord, "Bob", "2@s"),
        conv(Platform::Whatsapp, "Cid", "3@s"),
    ])
}

#[test]
fn new_starts_on_login_screen() {
    let app = App::new();
    assert!(app.running);
    assert_eq!(app.screen, Screen::Login);
    assert_eq!(app.selected, MenuItem::ContinueChats);
    assert_eq!(app.token_input, "");
    assert_eq!(app.discord_token, "");
    assert!(app.conversations.is_empty());
    assert_eq!(app.active_conv, None);
    assert_eq!(app.message_input, "");
    assert_eq!(app.contact_scroll, 0);
}

#[test]
fn default_equals_new() {
    let a = App::default();
    assert_eq!(a.screen, Screen::Login);
    assert!(a.running);
}

#[test]
fn next_conv_walks_down_and_stops_at_last() {
    let mut app = three();
    app.next_conv();
    assert_eq!(app.active_conv, Some(0));
    app.next_conv();
    assert_eq!(app.active_conv, Some(1));
    app.next_conv();
    assert_eq!(app.active_conv, Some(2));
    app.next_conv();
    assert_eq!(app.active_conv, Some(2));
}

#[test]
fn next_conv_on_empty_list_highlights_zero() {
    let mut app = App::new();
    app.next_conv();
    assert_eq!(app.active_conv, Some(0));
    app.next_conv();
    assert_eq!(app.active_conv, Some(0));
}

#[test]
fn next_conv_clamps_a_highlight_beyond_the_list() {
    let mut app = three();
    app.active_conv = Some(9);
    app.next_conv();
    assert_eq!(app.active_conv, Some(2));
    app.active_conv = Some(usize::MAX);
    app.next_conv();
    assert_eq!(app.active_conv, Some(2));
}

#[test]
fn prev_conv_walks_up_and_stops_at_first() {
    let mut app = three();
    app.prev_conv();
    assert_eq!(app.active_conv, Some(0));
    app.active_conv = Some(2);
    app.prev_conv();
    assert_eq!(app.active_conv, Some(1));
    app.prev_conv();
    app.prev_conv();
    assert_eq!(app.active_conv, Some(0));
}

#[test]
fn select_menu_item_goes_round_both_ways() {
    let mut app = App::new();
    let forward = [MenuItem::Discord, MenuItem::Whatsapp, MenuItem::Messages, MenuItem::ContinueChats];
    for m in forward {
        app.select_menu_item(false);
        assert_eq!(app.selected, m);
    }
    let backward = [MenuItem::Messages, MenuItem::Whatsapp, MenuItem::Discord, MenuItem::ContinueChats];
    for m in backward {
        app.select_menu_item(true);
        assert_eq!(app.selected, m);
    }
}

#[test]
fn select_current_opens_each_entry() {
    let mut app = App::new();
    app.screen = Screen::Main;
    app.selected = MenuItem::ContinueChats;
    assert_eq!(app.select_current(), Action::LoadContacts);
    assert_eq!(app.screen, Screen::AllChats);

    app.screen = Screen::Main;
    app.selected = MenuItem::Whatsapp;
    assert_eq!(app.select_current(), Action::LoadContacts);
    assert_eq!(app.screen, Screen::Whatsapp);

    app.screen = Screen::Main;
    app.selected = MenuItem::Messages;
    assert_eq!(app.select_current(), Action::LoadContacts);
    assert_eq!(app.screen, Screen::Main);
}

#[test]
fn select_current_discord_needs_a_token() {
    let mut app = App::new();
    app.screen = Screen::Main;
    app.selected = MenuItem::Discord;
    assert_eq!(app.select_current(), Action::LoadContacts);
    assert_eq!(app.screen, Screen::Login);

    app.discord_token = "tok".to_string();
    app.screen = Screen::Main;
    app.select_current();
    assert_eq!(app.screen, Screen::Discord);
}

#[test]
fn quit_stops_running() {
    let mut app = App::new();
    app.quit();
    assert!(!app.running);
    app.quit();
    assert!(!app.running);
}

#[test]
fn login_typing_backspace_and_enter() {
    let mut app = App::new();
    assert_eq!(app.handle_key_events(Key::Enter), Action::Nothing);
    assert_eq!(app.handle_key_events(Key::Backspace), Action::Nothing);
    assert_eq!(app.token_input, "");
    for c in "abq".chars() {
        assert_eq!(app.handle_key_events(Key::Char(c)), Action::Nothing);
    }
    assert_eq!(app.token_input, "abq");
    app.handle_key_events(Key::Backspace);
    assert_eq!(app.token_input, "ab");
    assert_eq!(app.handle_key_events(Key::Enter), Action::SaveToken("ab".to_string()));
    // nothing changes until the token is saved
    assert_eq!(app.screen, Screen::Login);
    assert_eq!(app.discord_token, "");
    app.complete_login();
    assert_eq!(app.screen, Screen::Main);
    assert_eq!(app.discord_token, "ab");
    assert_eq!(app.token_input, "");
}

#[test]
fn login_esc_quits() {
    let mut app = App::new();
    assert_eq!(app.handle_key_events(Key::Esc), Action::Quit);
    assert_eq!(app.screen, Screen::Login);
    assert!(app.running);
}

#[test]
fn main_menu_keys() {
    let mut app = App::new();
    app.screen = Screen::Main;
    assert_eq!(app.handle_key_events(Key::Char('q')), Action::Quit);
    assert_eq!(app.handle_key_events(Key::Esc), Action::Quit);
    app.handle_key_events(Key::Right);
    assert_eq!(app.selected, MenuItem::Discord);
    app.handle_key_events(Key::Char('k'));
    assert_eq!(app.selected, MenuItem::Whatsapp);
    app.handle_key_events(Key::Left);
    assert_eq!(app.selected, MenuItem::Discord);
    app.handle_key_events(Key::Char('j'));
    assert_eq!(app.selected, MenuItem::ContinueChats);
    assert_eq!(app.handle_key_events(Key::Char('x')), Action::Nothing);
    assert_eq!(app.handle_key_events(Key::Up), Action::Nothing);
    assert_eq!(app.screen, Screen::Main);
    assert_eq!(app.handle_key_events(Key::Enter), Action::LoadContacts);
    assert_eq!(app.screen, Screen::AllChats);
}

#[test]
fn discord_and_messages_screens_only_go_back() {
    for screen in [Screen::Discord, Screen::Messages] {
        let mut app = App::new();
        app.screen = screen;
        assert_eq!(app.handle_key_events(Key::Char('a')), Action::Nothing);
        assert_eq!(app.handle_key_events(Key::Enter), Action::Nothing);
        assert_eq!(app.screen, screen);
        assert_eq!(app.message_input, "");
        assert_eq!(app.handle_key_events(Key::Esc), Action::Nothing);
        assert_eq!(app.screen, Screen::Main);
    }
}

#[test]
fn chat_screen_typing_and_sending() {
    let mut app = three();
    app.screen = Screen::Whatsapp;
    app.handle_key_events(Key::Down);
    app.handle_key_events(Key::Down);
    assert_eq!(app.active_conv, Some(1));
    app.handle_key_events(Key::Up);
    assert_eq!(app.active_conv, Some(0));
    for c in "hi!".chars() {
        app.handle_key_events(Key::Char(c));
    }
    app.handle_key_events(Key::Backspace);
    assert_eq!(app.message_input, "hi");
    let act = app.handle_key_events(Key::Enter);
    assert_eq!(
        act,
        Action::Send(OutgoingMessage { jid: "1@s".to_string(), text: "hi".to_string() })
    );
    assert_eq!(app.message_input, "");
    assert_eq!(
        app.conversations[0].messages,
        vec![Message { from_me: true, content: "hi".to_string(), timestamp: "sending...".to_string() }]
    );
    assert!(app.conversations[1].messages.is_empty());
    assert!(app.conversations[2].messages.is_empty());
    assert_eq!(app.handle_key_events(Key::Esc), Action::Nothing);
    assert_eq!(app.screen, Screen::Main);
}

#[test]
fn send_needs_text_and_a_highlight() {
    let mut app = three();
    app.screen = Screen::AllChats;
    app.active_conv = Some(2);
    assert_eq!(app.send_current_message(), Action::Nothing);
    app.active_conv = None;
    app.message_input = "x".to_string();
    assert_eq!(app.send_current_message(), Action::Nothing);
    assert_eq!(app.message_input, "x");
    app.active_conv = Some(2);
    assert_eq!(
        app.send_current_message(),
        Action::Send(OutgoingMessage { jid: "3@s".to_string(), text: "x".to_string() })
    );
    assert_eq!(app.conversations[2].messages.len(), 1);
}

#[test]
fn apply_config_with_and_without_token() {
    let mut app = App::new();
    app.apply_config(Config { discord_token: String::new() });
    assert_eq!(app.screen, Screen::Login);
    assert_eq!(app.discord_token, "");
    app.apply_config(Config { discord_token: "secret".to_string() });
    assert_eq!(app.screen, Screen::Main);
    assert_eq!(app.discord_token, "secret");
}

#[test]
fn contacts_loaded_replaces_conversations() {
    let mut app = three();
    app.contact_scroll = 4;
    app.handle_app_event(AppEvent::ContactsLoaded(vec![
        Contact { jid: "9@s".to_string(), name: "Zoe".to_string() },
        Contact { jid: "8@s".to_string(), name: "Yan".to_string() },
    ]));
    assert_eq!(
        app.conversations,
        vec![conv(Platform::Whatsapp, "Zoe", "9@s"), conv(Platform::Whatsapp, "Yan", "8@s")]
    );
    assert_eq!(app.contact_scroll, 0);
    app.handle_app_event(AppEvent::ContactsLoaded(vec![]));
    assert!(app.conversations.is_empty());
}

#[test]
fn message_received_goes_to_first_matching_conversation() {
    let mut app = app_with(vec![
        conv(Platform::Whatsapp, "Ann", "1@s"),
        conv(Platform::Whatsapp, "Ann again", "1@s"),
        conv(Platform::Whatsapp, "Bob", "2@s"),
    ]);
    app.handle_app_event(AppEvent::MessageReceived {
        from: "1@s".to_string(),
        text: "hello".to_string(),
        timestamp: "10:00".to_string(),
    });
    assert_eq!(
        app.conversations[0].messages,
        vec![Message { from_me: false, content: "hello".to_string(), timestamp: "10:00".to_string() }]
    );
    assert!(app.conversations[1].messages.is_empty());
    assert!(app.conversations[2].messages.is_empty());
}

#[test]
fn message_from_unknown_sender_is_dropped() {
    let mut app = three();
    app.handle_app_event(AppEvent::MessageReceived {
        from: "7@s".to_string(),
        text: "hello".to_string(),
        timestamp: "10:00".to_string(),
    });
    assert!(app.conversations.iter().all(|c| c.messages.is_empty()));
}

#[test]
fn quit_event_stops_running() {
    let mut app = three();
    app.handle_app_event(AppEvent::Quit);
    assert!(!app.running);
    assert_eq!(app.conversations.len(), 3);
}

#[test]
fn backspace_undoes_typing_on_each_text_field() {
    for screen in [Screen::Login, Screen::Whatsapp, Screen::AllChats] {
        let mut app = three();
        app.screen = screen;
        app.token_input = "ab".to_string();
        app.message_input = "cd".to_string();
        app.handle_key_events(Key::Char('é'));
        app.handle_key_events(Key::Backspace);
        assert_eq!(app.token_input, "ab");
        assert_eq!(app.message_input, "cd");
        assert_eq!(app.screen, screen);
    }
}

#[test]
fn left_then_right_undoes_on_main_menu() {
    let mut app = App::new();
    app.screen = Screen::Main;
    for start in [MenuItem::ContinueChats, MenuItem::Discord, MenuItem::Whatsapp, MenuItem::Messages] {
        app.selected = start;
        app.handle_key_events(Key::Left);
        app.handle_key_events(Key::Right);
        assert_eq!(app.selected, start);
    }
}

#[test]
fn down_then_up_returns_to_same_conversation() {
    let mut app = three();
    app.active_conv = Some(1);
    app.next_conv();
    app.prev_conv();
    assert_eq!(app.active_conv, Some(1));
}
