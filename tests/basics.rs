use telebot::error::{Error, ErrorKind, TelegramError};
use telebot::functions::{Action, ParseMode, ReplyMarkup};
use telebot::objects::{ForceReply, User};
use telebot::request::build_url;
use telebot::text::{chars_of, join_from, split_words, string_of};
use telebot::Bot;

#[test]
fn url_of_method() {
    assert_eq!(build_url("123:abc", "getMe"), "https://api.telegram.org/bot123:abc/getMe");
    assert_eq!(build_url("", "sendMessage"), "https://api.telegram.org/bot/sendMessage");
}

#[test]
fn new_bot_defaults() {
    let bot: Bot<u8, u8, u8> = Bot::new("secret");
    assert_eq!(bot.key(), "secret");
    assert!(bot.name().is_none());
    assert_eq!(bot.get_update_interval(), 2000);
    assert_eq!(bot.get_timeout(), 3600);
    let bot = bot.update_interval(200).timeout(30);
    assert_eq!(bot.get_update_interval(), 200);
    assert_eq!(bot.get_timeout(), 30);
    assert_eq!(bot.key(), "secret");
}

#[test]
fn resolve_name_from_username() {
    let bot: Bot<u8, u8, u8> = Bot::new("k");
    let me = User { id: 7, first_name: String::from("Bot"), last_name: None, username: Some(String::from("my_bot")) };
    assert_eq!(bot.resolve_name(&me).as_deref(), Some("@my_bot"));
    let anonymous = User { id: 7, first_name: String::from("Bot"), last_name: None, username: None };
    assert!(bot.resolve_name(&anonymous).is_none());
}

#[test]
fn parse_mode_names() {
    assert_eq!(ParseMode::Markdown.into(), "Markdown");
    assert_eq!(ParseMode::HTML.into(), "HTML");
    assert_eq!(ParseMode::Text.into(), "Text");
}

#[test]
fn action_names() {
    assert_eq!(Action::Typing.into(), "Typing");
    assert_eq!(Action::UploadPhoto.into(), "UploadPhoto");
    assert_eq!(Action::RecordVideo.into(), "RecordVideo");
    assert_eq!(Action::UploadVideo.into(), "UploadVideo");
    assert_eq!(Action::RecordAudio.into(), "RecordVideo");
    assert_eq!(Action::UploadAudio.into(), "UploadAudio");
    assert_eq!(Action::UploadDocument.into(), "UploadDocument");
    assert_eq!(Action::FindLocation.into(), "FindLocation");
}

#[test]
fn reply_markup_from_force_reply() {
    let m = ReplyMarkup::from(ForceReply { force_reply: true, selective: None });
    match m {
        ReplyMarkup::ForceReply(f) => assert!(f.force_reply),
        _ => panic!("wrong variant"),
    }
}

#[test]
fn error_kinds() {
    let e = Error::from(ErrorKind::Channel);
    assert_eq!(e.kind(), ErrorKind::Channel);
    assert!(e.remote_message().is_none());
    let r = Error::remote(String::from("chat not found"));
    assert_eq!(r.kind(), ErrorKind::Telegram);
    assert_eq!(r.remote_message().unwrap().message(), "chat not found");
    assert_eq!(TelegramError::new(String::from("m")).message(), "m");
    assert!(ErrorKind::IntervalTimer.is_fatal());
    assert!(!ErrorKind::Channel.is_fatal());
    assert!(!ErrorKind::Hyper.is_fatal());
}

#[test]
fn words_and_join() {
    let cs = chars_of("  one\u{2003}two\n\tthree  ");
    let ws = split_words(&cs);
    let got: Vec<String> = ws.iter().map(|w| string_of(w)).collect();
    assert_eq!(got, vec!["one", "two", "three"]);
    assert_eq!(string_of(&join_from(&ws, 1)), "two three");
    assert_eq!(string_of(&join_from(&ws, 3)), "");
    assert!(split_words(&chars_of(" \u{a0} ")).is_empty());
}
