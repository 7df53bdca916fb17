//! The objects that the remote service sends: users, chats, messages and updates.
//!
//! Points on the map (`Location`, `Venue`) carry floating-point coordinates and are not part
//! of this model.
use vstd::prelude::*;

verus! {

pub type Boolean = bool;

pub type Integer = u32;

pub type Vector<T> = Vec<T>;

pub type NotImplemented = ();

/// A user or bot.
#[derive(Debug, Clone)]
pub struct User {
    pub id: u32,
    pub first_name: String,
    pub last_name: Option<String>,
    pub username: Option<String>,
}

/// A chat.
#[derive(Debug)]
pub struct Chat {
    pub id: u32,
    pub kind: String,
    pub title: Option<String>,
    pub username: Option<String>,
    pub first_name: Option<String>,
    pub last_name: Option<String>,
    pub all_members_are_administrators: Option<bool>,
}

/// One special entity of a text message (a command, a hashtag, a link, ...).
#[derive(Debug)]
pub struct MessageEntity {
    pub kind: String,
    pub offset: u32,
    pub length: u32,
    pub url: Option<String>,
    pub user: Option<User>,
}

/// A message.
#[derive(Debug)]
pub struct Message {
    pub message_id: u32,
    pub from: Option<User>,
    pub date: u32,
    pub chat: Chat,
    pub forward_from: Option<User>,
    pub forward_from_chat: Option<User>,
    pub forward_from_message_id: Option<u32>,
    pub forward_date: Option<u32>,
    pub reply_to_message: Option<Box<Message>>,
    pub edit_date: Option<u32>,
    pub text: Option<String>,
    pub entities: Option<Vec<MessageEntity>>,
    pub audio: Option<Audio>,
    pub document: Option<Document>,
    pub game: Option<NotImplemented>,
    pub photo: Option<Vec<PhotoSize>>,
    pub sticker: Option<Sticker>,
    pub video: Option<Video>,
    pub voice: Option<Voice>,
    pub caption: Option<String>,
    pub contact: Option<Contact>,
    pub new_chat_member: Option<User>,
    pub left_chat_member: Option<User>,
    pub new_chat_title: Option<String>,
    pub new_chat_photo: Option<Vec<PhotoSize>>,
    pub delete_chat_photo: Option<bool>,
    pub group_chat_created: Option<bool>,
    pub supergroup_chat_created: Option<bool>,
    pub channel_chat_created: Option<bool>,
    pub migrate_to_chat_id: Option<u32>,
    pub migrate_from_chat_id: Option<u32>,
    pub pinned_message: Option<Box<Message>>,
}

impl Message {
    pub fn get_chat_id(&self) -> (r: u32)
        ensures
            r == self.chat.id,
    {
        self.chat.id
    }
}

/// The batch of updates that one poll returns.
#[derive(Debug)]
pub struct Updates(pub Vec<Update>);

/// One unit of incoming activity, with its identifier.
#[derive(Debug)]
pub struct Update {
    pub update_id: u32,
    pub message: Option<Message>,
    pub edited_message: Option<Message>,
    pub channel_post: Option<Message>,
    pub edited_channel_post: Option<Message>,
    pub inline_query: Option<InlineQuery>,
    pub chosen_inline_result: Option<NotImplemented>,
    pub callback_query: Option<CallbackQuery>,
}

/// One size of a photo or of a file or sticker thumbnail.
#[derive(Debug, Clone)]
pub struct PhotoSize {
    pub file_id: String,
    pub width: u32,
    pub height: u32,
    pub file_size: Option<u32>,
}

/// An audio file to be treated as music.
#[derive(Debug)]
pub struct Audio {
    pub file_id: String,
    pub duration: u32,
    pub performer: Option<String>,
    pub title: Option<String>,
    pub mime_type: Option<String>,
    pub file_size: Option<u32>,
}

/// A general file.
#[derive(Debug)]
pub struct Document {
    pub file_id: String,
    pub thumb: Option<PhotoSize>,
    pub file_name: Option<String>,
    pub mime_type: Option<String>,
    pub file_size: Option<u32>,
}

/// A sticker.
#[derive(Debug)]
pub struct Sticker {
    pub file_id: String,
    pub width: u32,
    pub height: u32,
    pub thumb: Option<PhotoSize>,
    pub emoji: Option<String>,
    pub file_size: Option<u32>,
}

/// A video file.
#[derive(Debug)]
pub struct Video {
    pub file_id: String,
    pub width: u32,
    pub height: u32,
    pub duration: u32,
    pub thumb: Option<PhotoSize>,
    pub mime_type: Option<String>,
    pub file_size: Option<String>,
}

/// A voice note.
#[derive(Debug)]
pub struct Voice {
    pub file_id: String,
    pub duration: u32,
    pub mime_type: Option<String>,
    pub file_size: Option<String>,
}

/// A phone contact.
#[derive(Debug)]
pub struct Contact {
    pub phone_number: String,
    pub first_name: String,
    pub last_name: String,
    pub user_id: u32,
}

/// A user's profile pictures.
#[derive(Debug)]
pub struct UserProfilePhotos {
    pub total_count: u32,
    pub photos: Vec<Vec<PhotoSize>>,
}

/// A file ready to be downloaded.
#[derive(Debug)]
pub struct File {
    pub file_id: String,
    pub file_size: Option<u32>,
    pub file_path: Option<String>,
}

/// A custom keyboard with reply options.
#[derive(Debug)]
pub struct ReplyKeyboardMarkup {
    pub keyboard: Vec<KeyboardButton>,
    pub resize_keyboard: Option<bool>,
    pub one_time_keyboard: Option<bool>,
    pub selective: Option<bool>,
}

/// One button of a reply keyboard.
#[derive(Debug)]
pub struct KeyboardButton {
    pub text: String,
    pub request_contact: Option<bool>,
    pub request_location: Option<bool>,
}

/// Asks clients to remove the current custom keyboard.
#[derive(Debug)]
pub struct ReplyKeyboardRemove {
    pub remove_keyboard: bool,
    pub selective: Option<bool>,
}

/// An inline keyboard shown next to its message.
#[derive(Debug)]
pub struct InlineKeyboardMarkup {
    pub inline_keyboard: Vec<InlineKeyboardButton>,
}

/// One button of an inline keyboard.
#[derive(Debug)]
pub struct InlineKeyboardButton {
    pub text: String,
    pub url: Option<String>,
    pub callback_data: Option<String>,
    pub switch_inline_query: Option<String>,
    pub switch_inline_query_current_chat: Option<String>,
    pub callback_game: Option<CallbackGame>,
}

/// A query from a callback button of an inline keyboard.
#[derive(Debug)]
pub struct CallbackQuery {
    pub id: String,
    pub from: User,
    pub message: Option<Message>,
    pub inline_message_id: Option<String>,
    pub chat_instance: Option<String>,
    pub data: Option<String>,
    pub game_short_name: Option<String>,
}

/// An incoming inline query.
#[derive(Debug)]
pub struct InlineQuery {
    pub id: String,
    pub from: User,
    pub query: String,
    pub offset: String,
}

/// Asks clients to show a reply interface.
#[derive(Debug)]
pub struct ForceReply {
    pub force_reply: bool,
    pub selective: Option<bool>,
}

/// One member of a chat.
#[derive(Debug)]
pub struct ChatMember {
    pub user: User,
    pub status: String,
}

/// Why a request was unsuccessful.
#[derive(Debug)]
pub struct ResponseParameter {
    pub migrate_to_chat_id: Option<u32>,
    pub retry_after: Option<u32>,
}

/// A placeholder for a game; holds no information.
#[derive(Debug)]
pub struct CallbackGame;

} // verus!
