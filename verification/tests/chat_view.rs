use seep::app::App;
use seep::chat::{Conversation, Message, Platform};
use seep::ui::{ContactLine, MessageLine};

fn msg(from_me: bool, content: &str, ts: &str) -> Message {
    Message { from_me, content: content.to_string(), timestamp: ts.to_string() }
}

fn sample() -> App {
    let mut app = App::new();
    app.conversations = vec![
        Conversation {
            platform: Platform::Whatsapp,
            user: "Ann".to_string(),
            messages: vec![msg(false, "hey", "09:00"), msg(true, "hi", "09:01")],
            jid: "1@s".to_string(),
        },
        Conversation {
            platform: Platform::Discord,
            user: "Bob".to_string(),
            messages: vec![],
            jid: "2@s".to_string(),
        },
        Conversation {
            platform: Platform::Whatsapp,
            user: "Cid".to_string(),
            messages: vec![],
            jid: "3@s".to_string(),
        },
    ];
    app
}

fn line(platform: Platform, label: &str) -> ContactLine {
    ContactLine { platform, label: label.to_string() }
}

#[test]
fn contact_lines_all_platforms() {
    let mut app = sample();
    app.active_conv = Some(1);
    assert_eq!(
        app.contact_lines(None),
        vec![
            line(Platform::Whatsapp, " Ann"),
            line(Platform::Discord, "> Bob"),
            line(Platform::Whatsapp, " Cid"),
        ]
    );
}

#[test]
fn contact_lines_filtered_mark_by_position_in_list() {
    let mut app = sample();
    app.active_conv = Some(1);
    // the mark goes by the position in the filtered list
    assert_eq!(
        app.contact_lines(Some(Platform::Whatsapp)),
        vec![line(Platform::Whatsapp, " Ann"), line(Platform::Whatsapp, "> Cid")]
    );
    assert!(app.contact_lines(Some(Platform::Messages)).is_empty());
}

#[test]
fn contact_lines_without_highlight() {
    let app = sample();
    assert_eq!(
        app.contact_lines(Some(Platform::Discord)),
        vec![line(Platform::Discord, " Bob")]
    );
    assert!(App::new().contact_lines(None).is_empty());
}

#[test]
fn message_lines_of_highlighted_conversation() {
    let mut app = sample();
    assert_eq!(app.message_lines(), None);
    app.active_conv = Some(0);
    assert_eq!(
        app.message_lines(),
        Some(vec![
            MessageLine { from_me: false, text: "09:00 Ann: hey".to_string() },
            MessageLine { from_me: true, text: "09:01 you: hi".to_string() },
        ])
    );
    app.active_conv = Some(2);
    assert_eq!(app.message_lines(), Some(vec![]));
}
