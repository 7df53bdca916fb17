//! The request records of the service's methods, one per method, and the typed values that
//! some of their fields take.
//!
//! Each record holds the fields of one call; the method name that it is sent to is given in
//! its documentation. `sendLocation` and `sendVenue` carry floating-point coordinates and
//! `answerInlineQuery` carries arbitrary serializable results: they are not part of this model.
use vstd::prelude::*;
use crate::objects::{
    ForceReply, InlineKeyboardMarkup, Integer, ReplyKeyboardMarkup, ReplyKeyboardRemove,
};

verus! {

/// The way the text of a message is to be read.
#[derive(Copy, Clone, Debug, PartialEq, Eq, Structural)]
pub enum ParseMode {
    Markdown,
    HTML,
    Text,
}

pub open spec fn parse_mode_name(m: ParseMode) -> Seq<char> {
    match m {
        ParseMode::Markdown => "Markdown"@,
        ParseMode::HTML => "HTML"@,
        ParseMode::Text => "Text"@,
    }
}

impl ParseMode {
    /// The name under which the mode is sent.
    pub fn into(self) -> (r: String)
        ensures
            r@ == parse_mode_name(self),
    {
        let s = match self {
            ParseMode::Markdown => "Markdown",
            ParseMode::HTML => "HTML",
            ParseMode::Text => "Text",
        };
        s.to_owned()
    }
}

/// The activity that a chat action announces.
#[derive(Copy, Clone, Debug, PartialEq, Eq, Structural)]
pub enum Action {
    Typing,
    UploadPhoto,
    RecordVideo,
    UploadVideo,
    RecordAudio,
    UploadAudio,
    UploadDocument,
    FindLocation,
}

/// The names under which actions are sent; recording audio is announced as recording video.
pub open spec fn action_name(a: Action) -> Seq<char> {
    match a {
        Action::Typing => "Typing"@,
        Action::UploadPhoto => "UploadPhoto"@,
        Action::RecordVideo => "RecordVideo"@,
        Action::UploadVideo => "UploadVideo"@,
        Action::RecordAudio => "RecordVideo"@,
        Action::UploadAudio => "UploadAudio"@,
        Action::UploadDocument => "UploadDocument"@,
        Action::FindLocation => "FindLocation"@,
    }
}

impl Action {
    /// The name under which the action is sent.
    pub fn into(self) -> (r: String)
        ensures
            r@ == action_name(self),
    {
        let s = match self {
            Action::Typing => "Typing",
            Action::UploadPhoto => "UploadPhoto",
            Action::RecordVideo => "RecordVideo",
            Action::UploadVideo => "UploadVideo",
            Action::RecordAudio => "RecordVideo",
            Action::UploadAudio => "UploadAudio",
            Action::UploadDocument => "UploadDocument",
            Action::FindLocation => "FindLocation",
        };
        s.to_owned()
    }
}

/// The kinds of reply markup that a message can carry.
pub enum ReplyMarkup {
    InlineKeyboardMarkup(InlineKeyboardMarkup),
    ReplyKeyboardMarkup(ReplyKeyboardMarkup),
    ReplyKeyboardRemove(ReplyKeyboardRemove),
    ForceReply(ForceReply),
}

impl From<InlineKeyboardMarkup> for ReplyMarkup {
    fn from(f: InlineKeyboardMarkup) -> ReplyMarkup {
        ReplyMarkup::InlineKeyboardMarkup(f)
    }
}

impl vstd::std_specs::convert::FromSpecImpl<InlineKeyboardMarkup> for ReplyMarkup {
    open spec fn obeys_from_spec() -> bool {
        true
    }

    open spec fn from_spec(f: InlineKeyboardMarkup) -> ReplyMarkup {
        ReplyMarkup::InlineKeyboardMarkup(f)
    }
}

impl From<ReplyKeyboardMarkup> for ReplyMarkup {
    fn from(f: ReplyKeyboardMarkup) -> ReplyMarkup {
        ReplyMarkup::ReplyKeyboardMarkup(f)
    }
}

impl vstd::std_specs::convert::FromSpecImpl<ReplyKeyboardMarkup> for ReplyMarkup {
    open spec fn obeys_from_spec() -> bool {
        true
    }

    open spec fn from_spec(f: ReplyKeyboardMarkup) -> ReplyMarkup {
        ReplyMarkup::ReplyKeyboardMarkup(f)
    }
}

impl From<ReplyKeyboardRemove> for ReplyMarkup {
    fn from(f: ReplyKeyboardRemove) -> ReplyMarkup {
        ReplyMarkup::ReplyKeyboardRemove(f)
    }
}

impl vstd::std_specs::convert::FromSpecImpl<ReplyKeyboardRemove> for ReplyMarkup {
    open spec fn obeys_from_spec() -> bool {
        true
    }

    open spec fn from_spec(f: ReplyKeyboardRemove) -> ReplyMarkup {
        ReplyMarkup::ReplyKeyboardRemove(f)
    }
}

impl From<ForceReply> for ReplyMarkup {
    fn from(f: ForceReply) -> ReplyMarkup {
        ReplyMarkup::ForceReply(f)
    }
}

impl vstd::std_specs::convert::FromSpecImpl<ForceReply> for ReplyMarkup {
    open spec fn obeys_from_spec() -> bool {
        true
    }

    open spec fn from_spec(f: ForceReply) -> ReplyMarkup {
        ReplyMarkup::ForceReply(f)
    }
}

/// A simple method for testing your bot's auth token. Requires no parameters. Returns basic
/// information about the bot in form of a User object.
/// Method `getMe`.
pub struct GetMe;

/// Use this method to receive incoming updates using long polling (wiki). An Array of Update
/// objects is returned.
/// Method `getUpdates`.
pub struct GetUpdates {
    pub offset: Option<u64>,
    pub limit: Option<Integer>,
    pub timeout: Option<u64>,
    pub allowed_updates: Option<Vec<String>>,
}

/// Use this method to send text messages. On success, the sent Message is returned.
/// Method `sendMessage`.
pub struct Message {
    pub chat_id: Integer,
    pub text: String,
    pub parse_mode: Option<String>,
    pub disable_web_page_preview: Option<bool>,
    pub disable_notificaton: Option<bool>,
    pub reply_to_message_id: Option<Integer>,
    pub reply_markup: Option<ReplyMarkup>,
}

/// Use this method to send photos. On success, the sent Message is returned.
/// Method `sendPhoto`.
pub struct SendPhoto {
    pub chat_id: Integer,
    pub photo: Option<String>,
    pub caption: Option<String>,
    pub disable_notification: Option<bool>,
    pub reply_to_message_id: Option<bool>,
    pub reply_markup: Option<ReplyMarkup>,
}

/// Use this method to send audio files, if you want Telegram clients to display them in the music
/// player. Your audio must be in the .mp3 format. On success, the sent Message is returned. Bots
/// can currently send audio files of up to 50 MB in size, this limit may be changed in the future.
///
/// For sending voice messages, use the sendVoice method instead.
/// Method `sendAudio`.
pub struct SendAudio {
    pub chat_id: Integer,
    pub audio: Option<String>,
    pub caption: Option<String>,
    pub duration: Option<Integer>,
    pub performer: Option<String>,
    pub title: Option<String>,
    pub disable_notification: Option<bool>,
    pub reply_to_message_id: Option<Integer>,
    pub reply_markup: Option<ReplyMarkup>,
}

/// Use this method to send general files. On success, the sent Message is returned. Bots can
/// currently send files of any type of up to 50 MB in size, this limit may be changed in the
/// future.
/// Method `sendDocument`.
pub struct SendDocument {
    pub chat_id: Integer,
    pub document: Option<String>,
    pub caption: Option<String>,
    pub disable_notification: Option<bool>,
    pub reply_to_message_id: Option<Integer>,
    pub reply_markup: Option<ReplyMarkup>,
}

/// Use this method to send .webp stickers. On success, the sent Message is returned.
/// Method `sendSticker`.
pub struct SendSticker {
    pub chat_id: Integer,
    pub sticker: Option<String>,
    pub disable_notification: Option<bool>,
    pub reply_to_message_id: Option<Integer>,
    pub reply_markup: Option<ReplyMarkup>,
}

/// Use this method to send video files, Telegram clients support mp4 videos (other formats may be
/// sent as Document). On success, the sent Message is returned. Bots can currently send video
/// files of up to 50 MB in size, this limit may be changed in the future.
/// Method `sendVideo`.
pub struct SendVideo {
    pub chat_id: Integer,
    pub video: Option<String>,
    pub duration: Option<Integer>,
    pub width: Option<Integer>,
    pub height: Option<Integer>,
    pub caption: Option<String>,
    pub disable_notification: Option<bool>,
    pub reply_to_message_id: Option<Integer>,
    pub reply_markup: Option<ReplyMarkup>,
}

/// Use this method to send audio files, if you want Telegram clients to display the file as a
/// playable voice message. For this to work, your audio must be in an .ogg file encoded with OPUS
/// (other formats may be sent as Audio or Document). On success, the sent Message is returned.
/// Bots can currently send voice messages of up to 50 MB in size, this limit may be changed in the
/// future.
/// Method `sendVoice`.
pub struct SendVoice {
    pub chat_id: Integer,
    pub voice: Option<String>,
    pub caption: Option<String>,
    pub duration: Option<Integer>,
    pub disable_notification: Option<bool>,
    pub reply_to_message_id: Option<Integer>,
    pub reply_markup: Option<ReplyMarkup>,
}

/// Use this method to send phone contacts. On success, the sent Message is returned.
/// Method `sendContact`.
pub struct SendContact {
    pub chat_id: Integer,
    pub phone_number: String,
    pub first_name: String,
    pub last_name: Option<String>,
    pub disable_notification: Option<bool>,
    pub reply_to_message_id: Option<Integer>,
    pub reply_markup: Option<ReplyMarkup>,
}

/// Use this method when you need to tell the user that something is happening on the bot's side.
/// The status is set for 5 seconds or less (when a message arrives from your bot, Telegram clients
/// clear its typing status). Returns True on success.
/// Method `sendChatAction`.
pub struct SendAction {
    pub chat_id: Integer,
    pub action: String,
}

/// Use this method to send a game. On success, the sent Message is returned.
/// Method `sendGame`.
pub struct SendGame {
    pub chat_id: Integer,
    pub game_short_name: String,
    pub disable_notification: Option<bool>,
    pub reply_to_message_id: Option<Integer>,
    pub reply_markup: Option<InlineKeyboardMarkup>,
}

/// Use this method to set the score of the specified user in a game. On success, if the message
/// was sent by the bot, returns the edited Message, otherwise returns True. Returns an error, if
/// the new score is not greater than the user's current score in the chat and force is False.
/// Method `setGameScore`.
pub struct SetGameScore {
    pub user_id: Integer,
    pub score: Integer,
    pub force: Option<bool>,
    pub disable_edit_message: Option<bool>,
    pub chat_id: Option<Integer>,
    pub message_id: Option<Integer>,
    pub inline_message_id: Option<String>,
}

/// Use this method to get data for high score tables. Will return the score of the specified user
/// and several of his neighbors in a game. On success, returns an Array of GameHighScore objects.
///
/// This method will currently return scores for the target user, plus two of his closest neighbors
/// on each side. Will also return the top three users if the user and his neighbors are not among
/// them. Please note that this behavior is subject to change.
/// Method `getGameHighScores`.
pub struct GetGameHighScores {
    pub user_id: Integer,
    pub chat_id: Option<Integer>,
    pub message_id: Option<Integer>,
    pub inline_message_id: Option<String>,
}

/// Use this method to get a list of profile pictures for a user. Returns a UserProfilePhotos
/// object.
/// Method `getUserProfilePhotos`.
pub struct GetUserProfilePhotos {
    pub user_id: Integer,
    pub offset: Option<Integer>,
    pub limit: Option<Integer>,
}

/// Use this method to get basic info about a file and prepare it for downloading. For the moment,
/// bots can download files of up to 20MB in size. On success, a File object is returned. The file
/// can then be downloaded via the link https://api.telegram.org/file/bot<token>/<file_path>, where
/// <file_path> is taken from the response. It is guaranteed that the link will be valid for at
/// least 1 hour. When the link expires, a new one can be requested by calling getFile again.
/// Method `getFile`.
pub struct GetFile {
    pub file_id: String,
}

/// Use this method to kick a user from a group or a supergroup. In the case of supergroups, the
/// user will not be able to return to the group on their own using invite links, etc., unless
/// unbanned first. The bot must be an administrator in the group for this to work. Returns True on
/// success.
/// Method `kickChatMember`.
pub struct KickChatMember {
    pub chat_id: Integer,
    pub user_id: Integer,
}

/// Use this method for your bot to leave a group, supergroup or channel. Returns True on
/// success.
/// Method `leaveChat`.
pub struct LeaveChat {
    pub chat_id: Integer,
}

/// Use this method to unban a previously kicked user in a supergroup. The user will not return to
/// the group automatically, but will be able to join via link, etc. The bot must be an
/// administrator in the group for this to work. Returns True on success.
/// Method `unbanChatMember`.
pub struct UnbanChatMember {
    pub chat_id: Integer,
    pub user_id: Integer,
}

/// Use this method to restrict a user in a supergroup. The bot must be an administrator in the
/// supergroup for this to work and must have the appropriate admin rights. Pass True for all
/// boolean parameters to lift restrictions from a user. Returns True on success.
/// Method `restrictChatMember`.
pub struct RestrictChatMember {
    pub chat_id: Integer,
    pub user_id: Integer,
    pub until_date: Option<Integer>,
    pub can_send_messages: Option<bool>,
    pub can_send_media_messages: Option<bool>,
    pub can_send_other_messages: Option<bool>,
    pub can_add_web_previews: Option<bool>,
}

/// Use this method to promote or demote a user in a supergroup or a channel. The bot must be an
/// administrator in the chat for this to work and must have the appropriate admin rights. Pass
/// False for all boolean parameters to demote a user. Returns True on success.
/// Method `promoteChatMember`.
pub struct PromoteChatMember {
    pub chat_id: Integer,
    pub user_id: Integer,
    pub can_change_into: Option<bool>,
    pub can_post_messages: Option<bool>,
    pub can_edit_messages: Option<bool>,
    pub can_delete_messages: Option<bool>,
    pub can_invite_users: Option<bool>,
    pub can_restrict_members: Option<bool>,
    pub can_pin_messages: Option<bool>,
    pub can_promote_members: Option<bool>,
}

/// Use this method to generate a new invite link for a chat; any previously generated link is
/// revoked. The bot must be an administrator in the chat for this to work and must have the
/// appropriate admin rights. Returns the new invite link as String on success.
/// Method `exportChatInviteLink`.
pub struct ExportChatInviteLink {
    pub chat_id: Integer,
}

/// Use this method to delete a chat photo. Photos can't be changed for private chats. The bot must
/// be an administrator in the chat for this to work and must have the appropriate admin rights.
/// Returns True on success.
///
/// Note: In regular groups (non-supergroups), this method will only work if the ‘All Members Are
/// Admins’ setting is off in the target group.
/// Method `deleteChatPhoto`.
pub struct DeleteChatPhoto {
    pub chat_id: Integer,
}

/// Use this method to change the title of a chat. Titles can't be changed for private chats. The
/// bot must be an administrator in the chat for this to work and must have the appropriate admin
/// rights. Returns True on success.
///
/// Note: In regular groups (non-supergroups), this method will only work if the ‘All Members Are
/// Admins’ setting is off in the target group.
/// Method `setChatTitle`.
pub struct SetChatTitle {
    pub chat_id: Integer,
    pub title: String,
}

/// Use this method to change the description of a supergroup or a channel. The bot must be an
/// administrator in the chat for this to work and must have the appropriate admin rights. Returns
/// True on success.
/// Method `setChatDescription`.
pub struct SetChatDescription {
    pub chat_id: Integer,
    pub description: String,
}

/// Use this method to pin a message in a supergroup or a channel. The bot must be an administrator
/// in the chat for this to work and must have the ‘can_pin_messages’ admin right in the supergroup
/// or ‘can_edit_messages’ admin right in the channel. Returns True on success.
/// Method `pinChatMessage`.
pub struct PinChatMessage {
    pub chat_id: Integer,
    pub message_id: Integer,
    pub disable_notification: Option<bool>,
}

/// Use this method to unpin a message in a supergroup or a channel. The bot must be an
/// administrator in the chat for this to work and must have the ‘can_pin_messages’ admin right in
/// the supergroup or ‘can_edit_messages’ admin right in the channel. Returns True on success.
/// Method `unpinChatMessage`.
pub struct UnpinChatMessage {
    pub chat_id: Integer,
}

/// Use this method to get up to date information about the chat (current name of the user for
/// one-on-one conversations, current username of a user, group or channel, etc.). Returns a Chat
/// object on success.
/// Method `getChat`.
pub struct GetChat {
    pub chat_id: Integer,
}

/// Use this method to get a list of administrators in a chat. On success, returns an Array of
/// ChatMember objects that contains information about all chat administrators except other bots.
/// If the chat is a group or a supergroup and no administrators were appointed, only the creator
/// will be returned.
/// Method `getChatAdministrators`.
pub struct GetChatAdministrators {
    pub chat_id: Integer,
}

/// Use this method to get the number of members in a chat. Returns Int on success.
/// Method `getChatMembersCount`.
pub struct GetChatMemberCounts {
    pub chat_id: Integer,
}

/// Use this method to get information about a member of a chat. Returns a ChatMember object on
/// success.
/// Method `getChatMember`.
pub struct GetChatMember {
    pub chat_id: Integer,
    pub user_id: Integer,
}

/// Use this method to send answers to callback queries sent from inline keyboards. The answer will
/// be displayed to the user as a notification at the top of the chat screen or as an alert. On
/// success, True is returned.
/// Method `answerCallbackQuery`.
pub struct AnswerCallbackQuery {
    pub callback_query_id: String,
    pub text: Option<String>,
    pub show_alert: Option<bool>,
    pub url: Option<String>,
    pub cache_time: Option<Integer>,
}

/// Use this method to edit text and game messages sent by the bot or via the bot (for inline bots).
/// On success, if edited message is sent by the bot, the edited Message is returned, otherwise True
/// is returned.
/// Method `editMessageText`.
pub struct EditMessageText {
    pub text: String,
    pub chat_id: Option<Integer>,
    pub message_id: Option<Integer>,
    pub inline_message_id: Option<Integer>,
    pub parse_mode: Option<String>,
    pub disable_web_page_preview: Option<bool>,
    pub reply_markup: Option<InlineKeyboardMarkup>,
}

/// Use this method to edit captions of messages sent by the bot or via the bot (for inline bots).
/// On success, if edited message is sent by the bot, the edited Message is returned, otherwise
/// True is returned.
/// Method `editMessageCaption`.
pub struct EditMessageCaption {
    pub chat_id: Option<Integer>,
    pub message_id: Option<Integer>,
    pub inline_message_id: Option<Integer>,
    pub caption: Option<String>,
    pub parse_mode: Option<String>,
    pub reply_markup: Option<InlineKeyboardMarkup>,
}

/// Use this method to edit only the reply markup of messages sent by the bot or via the bot (for
/// inline bots). On success, if edited message is sent by the bot, the edited Message is returned,
/// otherwise True is returned.
/// Method `editMessageReplyMarkup`.
pub struct EditMessageReplyMarkup {
    pub chat_id: Option<Integer>,
    pub message_id: Option<Integer>,
    pub inline_message_id: Option<Integer>,
    pub reply_markup: Option<InlineKeyboardMarkup>,
}

/// Use this method to delete a message, including service messages, with the following limitations:
/// - A message can only be deleted if it was sent less than 48 hours ago.
/// - Bots can delete outgoing messages in groups and supergroups.
/// - Bots granted can_post_messages permissions can delete outgoing messages in channels.
/// - If the bot is an administrator of a group, it can delete any message there.
/// - If the bot has can_delete_messages permission in a supergroup or a channel, it can delete any
///  message there.
/// Returns True on success.
/// Method `deleteMessage`.
pub struct DeleteMessage {
    pub chat_id: Integer,
    pub message_id: Integer,
}

///Use this method to create new sticker set owned by a user.
///The bot will be able to edit the created sticker set. Returns True on success.
/// Method `createNewStickerSet`.
pub struct CreateNewStickerSet {
    pub user_id: Integer,
    pub name: String,
    pub title: String,
    pub emojis: String,
    pub png_sticker: Option<String>,
}

///Use this method to add a new sticker to a set created by the bot. Returns True on success.
/// Method `addStickerToSet`.
pub struct AddStickerToSet {
    pub user_id: Integer,
    pub name: String,
    pub emojis: String,
    pub png_sticker: Option<String>,
}

} // verus!
