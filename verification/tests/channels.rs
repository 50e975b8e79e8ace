use santosobot::bus::OutboundMessage;
use santosobot::channels::cli::{CliChannel, CliInput};
use santosobot::channels::{route, Route};
use santosobot::channels::telegram::{
    Chat, ChatMember, Message, TelegramChannel, Update, User, TELEGRAM_MAX_MESSAGE_LENGTH,
};

fn channel(allow: &[&str]) -> TelegramChannel {
    TelegramChannel::new("TOKEN".to_string(), allow.iter().map(|s| s.to_string()).collect())
}

fn update(from: Option<(i64, bool)>, text: Option<&str>) -> Update {
    Update {
        update_id: 10,
        message: Some(Message {
            message_id: 1,
            from: from.map(|(id, is_bot)| User { id, is_bot, username: None, first_name: None }),
            chat: Chat { id: -100123, chat_type: "group".to_string() },
            text: text.map(|t| t.to_string()),
        }),
        my_chat_member: None,
    }
}

#[test]
fn text_messages_go_on() {
    let msg = channel(&[]).accept(&update(Some((42, false)), Some("hi"))).unwrap();
    assert_eq!(msg.channel, "telegram");
    assert_eq!(msg.sender_id, "42");
    assert_eq!(msg.chat_id, "-100123");
    assert_eq!(msg.content, "hi");
    assert!(msg.media.is_empty());
    assert!(msg.metadata.is_empty());
    let anonymous = channel(&[]).accept(&update(None, Some("hi"))).unwrap();
    assert_eq!(anonymous.sender_id, "");
}

#[test]
fn other_updates_do_not_go_on() {
    assert!(channel(&[]).accept(&update(Some((42, true)), Some("hi"))).is_none());
    assert!(channel(&[]).accept(&update(Some((42, false)), None)).is_none());
    assert!(channel(&["7"]).accept(&update(Some((42, false)), Some("hi"))).is_none());
    assert!(channel(&["7"]).accept(&update(None, Some("hi"))).is_none());
    assert!(channel(&["7", "42"]).accept(&update(Some((42, false)), Some("hi"))).is_some());
    let mut membership = update(Some((42, false)), Some("hi"));
    membership.my_chat_member = Some(ChatMember { user_id: Some(1), status: "member".to_string() });
    assert!(channel(&[]).accept(&membership).is_none());
    let empty = Update { update_id: 3, message: None, my_chat_member: None };
    assert!(channel(&[]).accept(&empty).is_none());
}

#[test]
fn offsets_and_addresses() {
    let telegram = channel(&[]);
    assert_eq!(telegram.next_offset(&update(None, None)), 11);
    let last = Update { update_id: i64::MAX, message: None, my_chat_member: None };
    assert_eq!(telegram.next_offset(&last), i64::MAX);
    assert_eq!(telegram.api_url("sendMessage"), "https://api.telegram.org/botTOKEN/sendMessage");
    assert_eq!(
        telegram.updates_url(-5),
        "https://api.telegram.org/botTOKEN/getUpdates?timeout=60&offset=-5"
    );
}

#[test]
fn chat_ids_are_numbers() {
    let telegram = channel(&[]);
    let to = |chat: &str| OutboundMessage::new("telegram".to_string(), chat.to_string(), "x".to_string());
    assert_eq!(telegram.chat_of(&to("123")), Ok(123));
    assert_eq!(telegram.chat_of(&to("-100123")), Ok(-100123));
    assert_eq!(telegram.chat_of(&to("+5")), Ok(5));
    assert_eq!(telegram.chat_of(&to("007")), Ok(7));
    assert_eq!(telegram.chat_of(&to("9223372036854775807")), Ok(i64::MAX));
    assert_eq!(telegram.chat_of(&to("-9223372036854775808")), Ok(i64::MIN));
    for bad in ["", "-", "+", "12a", " 12", "9223372036854775808", "-9223372036854775809", "1.0", "--1"] {
        assert_eq!(telegram.chat_of(&to(bad)), Err("Invalid chat_id".to_string()));
    }
}

#[test]
fn short_texts_are_one_message() {
    let telegram = channel(&[]);
    assert_eq!(telegram.split_message("hello\nworld"), vec!["hello\nworld"]);
    assert_eq!(telegram.split_message("hello\r\nworld\n"), vec!["hello\nworld"]);
    assert!(telegram.split_message("").is_empty());
    assert!(telegram.split_message("\n\n").is_empty());
    assert_eq!(telegram.split_message("a\n\nb"), vec!["a\n\nb"]);
    assert_eq!(telegram.split_message("\n\nb"), vec!["b"]);
}

#[test]
fn long_texts_are_cut_at_lines_and_spaces() {
    let telegram = channel(&[]);
    let max = TELEGRAM_MAX_MESSAGE_LENGTH;
    assert_eq!(max, 4096);
    let line = "x".repeat(3000);
    let parts = telegram.split_message(&format!("{}\n{}\n{}", line, line, "tail"));
    assert_eq!(parts, vec![line.clone(), format!("{}\ntail", line)]);

    let exact = "y".repeat(max - 1);
    assert_eq!(telegram.split_message(&exact), vec![exact.clone()]);
    let full = "y".repeat(max);
    assert_eq!(telegram.split_message(&full), vec![full.clone()]);

    let words = format!("{} {}", "a".repeat(4000), "b".repeat(200));
    assert_eq!(telegram.split_message(&words), vec!["a".repeat(4000), "b".repeat(200)]);

    let solid = "z".repeat(max + 10);
    assert_eq!(telegram.split_message(&solid), vec!["z".repeat(max), "z".repeat(9)]);

    let mixed = format!("intro\n{}\noutro", "w".repeat(2 * max + 5));
    let parts = telegram.split_message(&mixed);
    assert_eq!(
        parts,
        vec!["intro".to_string(), "w".repeat(max), "w".repeat(max), "www".to_string(), "outro".to_string()]
    );
    for text in [words, solid, mixed, "é".repeat(5000)] {
        for part in telegram.split_message(&text) {
            assert!(part.chars().count() <= max);
        }
    }
}

#[test]
fn answers_are_routed_by_channel() {
    assert_eq!(route("telegram"), Route::Telegram);
    assert_eq!(route("cli"), Route::Cli);
    assert_eq!(route("Telegram"), Route::Unknown);
    assert_eq!(route(""), Route::Unknown);
}

#[test]
fn command_line_input() {
    let cli = CliChannel::new();
    assert_eq!(cli.prompt, "> ");
    assert!(matches!(cli.read("   \n"), CliInput::Empty));
    assert!(matches!(cli.read(""), CliInput::Empty));
    for quit in ["exit", "QUIT\n", "  /Exit ", "/quit", "eXiT"] {
        assert!(matches!(cli.read(quit), CliInput::Quit));
    }
    match cli.read("  exit now \n") {
        CliInput::Say(text) => assert_eq!(text, "exit now"),
        other => panic!("unexpected input {:?}", other),
    }
    match cli.read("exi\u{74}\u{301}") {
        CliInput::Say(text) => assert_eq!(text, "exit\u{301}"),
        other => panic!("unexpected input {:?}", other),
    }
    let msg = cli.message("hello".to_string());
    assert_eq!(msg.channel, "cli");
    assert_eq!(msg.sender_id, "user");
    assert_eq!(msg.chat_id, "cli");
    assert_eq!(msg.content, "hello");
}
