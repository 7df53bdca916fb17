use telebot::bot::Route;
use telebot::poll::UpdateCursor;
use telebot::objects::{CallbackQuery, Chat, Message, MessageEntity, Update, User};
use telebot::Bot;

type TestBot = Bot<&'static str, &'static str, &'static str>;

fn user() -> User {
    User { id: 1, first_name: String::from("Ann"), last_name: None, username: None }
}

fn message(text: Option<&str>, command_entity: bool) -> Message {
    let entities = if command_entity {
        Some(vec![MessageEntity {
            kind: String::from("bot_command"),
            offset: 0,
            length: 4,
            url: None,
            user: None,
        }])
    } else {
        None
    };
    Message {
        message_id: 10,
        from: Some(user()),
        date: 0,
        chat: Chat {
            id: 42,
            kind: String::from("private"),
            title: None,
            username: None,
            first_name: None,
            last_name: None,
            all_members_are_administrators: None,
        },
        forward_from: None,
        forward_from_chat: None,
        forward_from_message_id: None,
        forward_date: None,
        reply_to_message: None,
        edit_date: None,
        text: text.map(String::from),
        entities,
        audio: None,
        document: None,
        game: None,
        photo: None,
        sticker: None,
        video: None,
        voice: None,
        caption: None,
        contact: None,
        new_chat_member: None,
        left_chat_member: None,
        new_chat_title: None,
        new_chat_photo: None,
        delete_chat_photo: None,
        group_chat_created: None,
        supergroup_chat_created: None,
        channel_chat_created: None,
        migrate_to_chat_id: None,
        migrate_from_chat_id: None,
        pinned_message: None,
    }
}

fn update(id: u32, message: Option<Message>) -> Update {
    Update {
        update_id: id,
        message,
        edited_message: None,
        channel_post: None,
        edited_channel_post: None,
        inline_query: None,
        chosen_inline_result: None,
        callback_query: None,
    }
}

fn text_update(text: &str) -> Update {
    update(1, Some(message(Some(text), false)))
}

fn delivered(r: Route<&'static str, &'static str, &'static str>) -> (&'static str, Option<String>) {
    match r {
        Route::Message(q, m) => (*q, m.text),
        Route::Callback(q, _) => (*q, None),
        Route::Inline(q, _) => (*q, None),
        Route::Forward(_) => ("forward", None),
    }
}

#[test]
fn command_rewrites_text_for_its_queue() {
    let mut bot: TestBot = Bot::new("key");
    bot.new_cmd("/foo", "foo");
    bot.unknown_cmd("unknown_cmd");
    let (q, text) = delivered(bot.route(text_update("/foo bar baz")));
    assert_eq!(q, "foo");
    assert_eq!(text.as_deref(), Some("bar baz"));
}

#[test]
fn command_registered_without_marker() {
    let mut bot: TestBot = Bot::new("key");
    bot.new_cmd("foo", "foo");
    let (q, text) = delivered(bot.route(text_update("/foo   a\tb")));
    assert_eq!(q, "foo");
    assert_eq!(text.as_deref(), Some("a b"));
}

#[test]
fn unknown_command_gets_original_message() {
    let mut bot: TestBot = Bot::new("key");
    bot.unknown_cmd("unknown_cmd");
    let (q, text) = delivered(bot.route(text_update("/unregistered x")));
    assert_eq!(q, "unknown_cmd");
    assert_eq!(text.as_deref(), Some("/unregistered x"));
}

#[test]
fn mention_suffix_is_ignored() {
    let mut bot: TestBot = Bot::new("key");
    bot.set_name(Some(String::from("@botname")));
    bot.new_cmd("/foo", "foo");
    let (q1, t1) = delivered(bot.route(text_update("/foo@botname one two")));
    let (q2, t2) = delivered(bot.route(text_update("/foo one two")));
    assert_eq!(q1, "foo");
    assert_eq!((q1, t1), (q2, t2));
}

#[test]
fn mention_of_another_bot_is_kept() {
    let mut bot: TestBot = Bot::new("key");
    bot.set_name(Some(String::from("@botname")));
    bot.new_cmd("/foo", "foo");
    bot.unknown_cmd("unknown_cmd");
    let (q, text) = delivered(bot.route(text_update("/foo@other x")));
    assert_eq!(q, "unknown_cmd");
    assert_eq!(text.as_deref(), Some("/foo@other x"));
}

#[test]
fn callback_goes_to_callback_slot_only() {
    let mut bot: TestBot = Bot::new("key");
    bot.callback("callback");
    bot.new_text("hello", "text");
    bot.unknown_text("unknown_text");
    let mut u = update(3, Some(message(Some("hello"), false)));
    u.callback_query = Some(CallbackQuery {
        id: String::from("cb"),
        from: user(),
        message: None,
        inline_message_id: None,
        chat_instance: None,
        data: Some(String::from("d")),
        game_short_name: None,
    });
    match bot.route(u) {
        Route::Callback(q, cb) => {
            assert_eq!(*q, "callback");
            assert_eq!(cb.id, "cb");
        }
        _ => panic!("callback query not delivered to the callback slot"),
    }
}

#[test]
fn callback_without_slot_routes_message() {
    let mut bot: TestBot = Bot::new("key");
    bot.new_text("hello", "text");
    let mut u = update(3, Some(message(Some("hello world"), false)));
    u.callback_query = Some(CallbackQuery {
        id: String::from("cb"),
        from: user(),
        message: None,
        inline_message_id: None,
        chat_instance: None,
        data: None,
        game_short_name: None,
    });
    let (q, text) = delivered(bot.route(u));
    assert_eq!(q, "text");
    assert_eq!(text.as_deref(), Some("world"));
}

#[test]
fn plain_text_subscription() {
    let mut bot: TestBot = Bot::new("key");
    bot.new_text("hello", "text");
    let (q, text) = delivered(bot.route(text_update("  hello   big world ")));
    assert_eq!(q, "text");
    assert_eq!(text.as_deref(), Some("big world"));
}

#[test]
fn unmatched_text_goes_to_unknown_text_stripped() {
    let mut bot: TestBot = Bot::new("key");
    bot.unknown_text("unknown_text");
    let (q, text) = delivered(bot.route(text_update("what is this")));
    assert_eq!(q, "unknown_text");
    assert_eq!(text.as_deref(), Some("is this"));
}

#[test]
fn empty_text_goes_to_unknown_text() {
    let mut bot: TestBot = Bot::new("key");
    bot.unknown_text("unknown_text");
    let (q, text) = delivered(bot.route(text_update("   ")));
    assert_eq!(q, "unknown_text");
    assert_eq!(text.as_deref(), Some(""));
}

#[test]
fn unmatched_text_without_slot_is_forwarded() {
    let mut bot: TestBot = Bot::new("key");
    bot.new_cmd("/foo", "foo");
    match bot.route(text_update("hello")) {
        Route::Forward(u) => assert_eq!(u.message.unwrap().text.as_deref(), Some("hello")),
        _ => panic!("expected the update back"),
    }
}

#[test]
fn unknown_command_without_slot_falls_to_unknown_text() {
    let mut bot: TestBot = Bot::new("key");
    bot.unknown_text("unknown_text");
    let (q, text) = delivered(bot.route(text_update("/nothing here")));
    assert_eq!(q, "unknown_text");
    assert_eq!(text.as_deref(), Some("here"));
}

#[test]
fn entity_flags_command_without_marker() {
    let mut bot: TestBot = Bot::new("key");
    bot.set_name(Some(String::from("@b")));
    bot.new_text("start@b", "wrong");
    bot.new_text("start", "start");
    let u = update(1, Some(message(Some("start@b now"), true)));
    let (q, text) = delivered(bot.route(u));
    assert_eq!(q, "start");
    assert_eq!(text.as_deref(), Some("now"));
}

#[test]
fn message_without_text_is_forwarded() {
    let mut bot: TestBot = Bot::new("key");
    bot.unknown_text("unknown_text");
    bot.unknown_cmd("unknown_cmd");
    match bot.route(update(9, Some(message(None, true)))) {
        Route::Forward(u) => assert_eq!(u.update_id, 9),
        _ => panic!("expected the update back"),
    }
}

#[test]
fn update_without_message_is_forwarded() {
    let mut bot: TestBot = Bot::new("key");
    bot.unknown_text("unknown_text");
    match bot.route(update(4, None)) {
        Route::Forward(u) => assert_eq!(u.update_id, 4),
        _ => panic!("expected the update back"),
    }
}

#[test]
fn last_registration_wins() {
    let mut bot: TestBot = Bot::new("key");
    bot.new_cmd("/foo", "first");
    bot.new_cmd("foo", "second");
    let (q, _) = delivered(bot.route(text_update("/foo")));
    assert_eq!(q, "second");
}

#[test]
fn routed_message_keeps_other_fields() {
    let mut bot: TestBot = Bot::new("key");
    bot.new_cmd("/foo", "foo");
    match bot.route(text_update("/foo x")) {
        Route::Message(_, m) => {
            assert_eq!(m.message_id, 10);
            assert_eq!(m.get_chat_id(), 42);
            assert_eq!(m.from.unwrap().first_name, "Ann");
        }
        _ => panic!("expected delivery"),
    }
}

#[test]
fn cursor_after_batch_then_empty_batch() {
    let mut bot: TestBot = Bot::new("key");
    bot.unknown_text("unknown_text");
    let mut cursor = UpdateCursor::new();
    assert_eq!(cursor.offset(), 0);
    let routes = bot.process_updates(&mut cursor, vec![text_update_with_id(5), text_update_with_id(7)]);
    assert_eq!(routes.len(), 2);
    assert_eq!(cursor.offset(), 8);
    let routes = bot.process_updates(&mut cursor, vec![]);
    assert!(routes.is_empty());
    assert_eq!(cursor.offset(), 8);
}

fn text_update_with_id(id: u32) -> Update {
    update(id, Some(message(Some("hi"), false)))
}

#[test]
fn cursor_is_max_plus_one_and_never_moves_back() {
    let bot: TestBot = Bot::new("key");
    let mut cursor = UpdateCursor::new();
    let batches: Vec<Vec<u32>> = vec![vec![3, 9, 4], vec![], vec![2], vec![10, 11], vec![]];
    let mut last = 0;
    for batch in batches {
        let updates: Vec<Update> = batch.iter().map(|id| update(*id, None)).collect();
        bot.process_updates(&mut cursor, updates);
        assert!(cursor.offset() >= last);
        last = cursor.offset();
    }
    assert_eq!(cursor.offset(), 12);
}

#[test]
fn cursor_largest_identifier() {
    let mut cursor = UpdateCursor::new();
    cursor.advance(u32::MAX);
    assert_eq!(cursor.offset(), 1u64 << 32);
    cursor.advance(1);
    assert_eq!(cursor.offset(), 1u64 << 32);
}

#[test]
fn poll_request_uses_cursor() {
    let mut cursor = UpdateCursor::new();
    cursor.advance(41);
    let r = cursor.request(30);
    assert_eq!(r.offset, Some(42));
    assert_eq!(r.timeout, Some(30));
    assert!(r.limit.is_none());
    assert!(r.allowed_updates.is_none());
}

#[test]
fn process_updates_routes_in_order() {
    let mut bot: TestBot = Bot::new("key");
    bot.new_cmd("/a", "a");
    bot.new_cmd("/b", "b");
    let mut cursor = UpdateCursor::new();
    let routes = bot.process_updates(
        &mut cursor,
        vec![
            update(1, Some(message(Some("/b 1"), false))),
            update(2, Some(message(Some("/a 2"), false))),
            update(3, Some(message(Some("zzz"), false))),
        ],
    );
    let got: Vec<(&str, Option<String>)> = routes.into_iter().map(delivered).collect();
    assert_eq!(
        got,
        vec![
            ("b", Some(String::from("1"))),
            ("a", Some(String::from("2"))),
            ("forward", None),
        ]
    );
    assert_eq!(cursor.offset(), 4);
}

#[test]
fn pushed_update_is_acknowledged_and_routed() {
    let mut bot: TestBot = Bot::new("key");
    bot.new_cmd("/foo", "foo");
    let (status, route) = bot.accept_push(Some(text_update("/foo now")));
    assert_eq!(status, 200);
    let (q, text) = delivered(route.unwrap());
    assert_eq!(q, "foo");
    assert_eq!(text.as_deref(), Some("now"));
    let (status, route) = bot.accept_push(Some(update(2, None)));
    assert_eq!(status, 200);
    assert!(matches!(route, Some(Route::Forward(_))));
}

#[test]
fn unreadable_push_is_a_server_error() {
    let bot: TestBot = Bot::new("key");
    let (status, route) = bot.accept_push(None);
    assert_eq!(status, 500);
    assert!(route.is_none());
}

#[test]
fn lookup_finds_registered_keys() {
    let mut bot: TestBot = Bot::new("key");
    bot.new_cmd("start", "start");
    bot.new_text("hello", "hello");
    assert_eq!(bot.lookup("/start"), Some(&"start"));
    assert_eq!(bot.lookup("hello"), Some(&"hello"));
    assert_eq!(bot.lookup("start"), None);
    bot.new_text("hello", "again");
    assert_eq!(bot.lookup("hello"), Some(&"again"));
}
