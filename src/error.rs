//! The error kinds of the library and the error value that carries them.
use vstd::prelude::*;

verus! {

/// What went wrong, by kind.
#[derive(Copy, Clone, Debug, PartialEq, Eq, Structural)]
pub enum ErrorKind {
    /// The reply could not be decoded as UTF-8 text.
    UTF8Decode,
    /// The remote service reported a failure.
    Telegram,
    /// A file meant for upload could not be read.
    TelegramFileRead,
    /// The secure transport could not be set up.
    HttpsInitializeError,
    /// The request could not be sent or its reply not read.
    Hyper,
    /// The request address could not be built.
    Uri,
    /// Reading or writing data failed.
    IO,
    /// The reply is not JSON.
    JsonParse,
    /// A value could not be serialized to JSON.
    JsonSerialize,
    /// The reply is JSON but lacks a boolean `ok` member.
    Json,
    /// A delivery queue was closed by its consumer.
    Channel,
    /// The poll timer could not be created or ticked.
    IntervalTimer,
    /// The task runtime failed.
    Tokio,
    /// A file was expected but none was given.
    NoFile,
    /// A JSON object was expected.
    JsonNotMap,
    /// Anything else.
    Unknown,
}

impl ErrorKind {
    /// Kinds after which the update loop cannot go on; all others concern one request or one
    /// update only.
    pub open spec fn spec_is_fatal(self) -> bool {
        ||| self == ErrorKind::IntervalTimer
        ||| self == ErrorKind::Tokio
        ||| self == ErrorKind::HttpsInitializeError
    }

    pub fn is_fatal(self) -> (r: bool)
        ensures
            r == self.spec_is_fatal(),
    {
        match self {
            ErrorKind::IntervalTimer | ErrorKind::Tokio | ErrorKind::HttpsInitializeError => true,
            _ => false,
        }
    }
}

/// The failure message that the remote service gave.
#[derive(Debug)]
pub struct TelegramError {
    message: String,
}

impl TelegramError {
    pub fn new(message: String) -> (r: TelegramError)
        ensures
            r@ == message@,
    {
        TelegramError { message }
    }

    pub fn message(&self) -> (r: &String)
        ensures
            r@ == self@,
    {
        &self.message
    }
}

impl View for TelegramError {
    type V = Seq<char>;

    closed spec fn view(&self) -> Seq<char> {
        self.message@
    }
}

/// An error of the library: its kind, and the remote service's message where it gave one.
#[derive(Debug)]
pub struct Error {
    kind: ErrorKind,
    remote: Option<TelegramError>,
}

/// The model of an error: its kind and the remote message, if any.
pub type ErrorView = (ErrorKind, Option<Seq<char>>);

impl View for Error {
    type V = ErrorView;

    closed spec fn view(&self) -> ErrorView {
        (
            self.kind,
            match self.remote {
                Some(t) => Some(t@),
                None => None,
            },
        )
    }
}

impl Error {
    pub fn kind(&self) -> (r: ErrorKind)
        ensures
            r == self@.0,
    {
        self.kind
    }

    /// An error of the given kind, without a remote message.
    pub fn of_kind(kind: ErrorKind) -> (r: Error)
        ensures
            r@ == (kind, None::<Seq<char>>),
    {
        Error { kind, remote: None }
    }

    /// A failure reported by the remote service, with its message.
    pub fn remote(message: String) -> (r: Error)
        ensures
            r@ == (ErrorKind::Telegram, Some(message@)),
    {
        Error { kind: ErrorKind::Telegram, remote: Some(TelegramError::new(message)) }
    }

    /// The remote service's message, if it gave one.
    pub fn remote_message(&self) -> (r: Option<&TelegramError>)
        ensures
            match r {
                Some(t) => self@.1 == Some(t@),
                None => self@.1 is None,
            },
    {
        match &self.remote {
            Some(t) => Some(t),
            None => None,
        }
    }
}

impl From<ErrorKind> for Error {
    fn from(kind: ErrorKind) -> (r: Error) {
        Error { kind, remote: None }
    }
}

impl vstd::std_specs::convert::FromSpecImpl<ErrorKind> for Error {
    open spec fn obeys_from_spec() -> bool {
        true
    }

    closed spec fn from_spec(kind: ErrorKind) -> Error {
        Error { kind, remote: None }
    }
}

} // verus!
