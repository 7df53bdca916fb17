//! A client for a bot messaging service: decoding of the service's replies, the long-poll
//! cursor, and the routing of incoming updates to the queues that subscribed to them.
//!
//! - `reply` decodes the `{"ok", "result", "description"}` envelope of every reply.
//! - `poll` keeps the cursor of the long poll.
//! - `bot` holds the bot's configuration and subscriptions and routes each update.
//! - `file` describes the files that requests carry; `request` builds method addresses.
//! - `objects` and `functions` are the records that the service sends and accepts.
//!
//! Sending requests, running the poll loop and listening for pushed updates are left to the
//! caller, which hands this library plain values and delivers what routing decides.
pub mod bot;
pub mod error;
pub mod file;
pub mod functions;
pub mod json;
pub mod objects;
pub mod poll;
pub mod reply;
pub mod request;
pub mod text;

pub use bot::Bot;
pub use error::Error;
pub use file::File;
