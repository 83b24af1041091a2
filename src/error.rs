//! The error envelope shared by every part of the library.
use vstd::prelude::*;

verus! {

/// What part of the system an [`Error`] came from.
#[derive(Clone, Copy, Debug, PartialEq, Eq, Structural)]
pub enum ErrorKind {
    /// Child spawn, stdio reads and writes, the filesystem.
    Io,
    /// The decoder broke its stdio contract (a missing handle, say).
    DecoderProtocol,
    /// The decoder exited before it published the output size.
    InvalidInput,
    /// A byte count that does not match the declared image geometry.
    FrameGeometry,
    /// A decoder log line that could not be read.
    Parse,
    /// A lock whose holder panicked.
    PoisonedMutex,
    /// The OCR engine or the classification runtime failed.
    Analyzer,
    /// Fetching language data over the network failed.
    Network,
    /// An `Option` was empty where a value was required.
    NoneValue,
    /// Anything else.
    Other,
}

/// Uniform error envelope: a kind, a message, and the message of the
/// underlying failure when there is one.
#[derive(Clone, Debug)]
pub struct Error {
    pub kind: ErrorKind,
    pub message: String,
    pub source: Option<String>,
}

/// The message of the dedicated invalid-input error.
pub const DECODER_EXITED_EARLY: &'static str = "decoder exited before sending output size";

/// The message of a [`NoneError`].
pub const NONE_MESSAGE: &'static str = "called unwrap() on None";

impl Error {
    /// Wraps an underlying error: its description becomes the message and is
    /// kept as the source.
    pub fn from_std(kind: ErrorKind, description: String) -> (r: Error)
        ensures
            r.kind == kind,
            r.message@ == description@,
            r.source matches Some(s) && s@ == description@,
    {
        let message = description.clone();
        Error { kind, message, source: Some(description) }
    }

    /// Wraps a plain message, with no underlying source.
    pub fn from_display(kind: ErrorKind, message: String) -> (r: Error)
        ensures
            r.kind == kind,
            r.message@ == message@,
            r.source is None,
    {
        Error { kind, message, source: None }
    }

    /// The error raised when the decoder exits before it publishes the size of
    /// its output frames.
    pub fn invalid_input() -> (r: Error)
        ensures
            r.kind == ErrorKind::InvalidInput,
            r.message@ == DECODER_EXITED_EARLY@,
            r.source is None,
    {
        Error::from_display(ErrorKind::InvalidInput, String::from_str(DECODER_EXITED_EARLY))
    }

    /// The error's message.
    pub fn to_string(&self) -> (r: String)
        ensures
            r@ == self.message@,
    {
        self.message.clone()
    }
}

/// An attempt to take a value out of an empty `Option`.
#[derive(Clone, Copy, Debug, PartialEq, Eq, Structural)]
pub struct NoneError;

impl NoneError {
    /// The error's message.
    pub fn to_string(&self) -> (r: String)
        ensures
            r@ == NONE_MESSAGE@,
    {
        String::from_str(NONE_MESSAGE)
    }
}

impl From<NoneError> for Error {
    fn from(e: NoneError) -> (r: Error) {
        Error::from_std(ErrorKind::NoneValue, e.to_string())
    }
}

impl vstd::std_specs::convert::FromSpecImpl<NoneError> for Error {
    open spec fn obeys_from_spec() -> bool {
        false
    }

    open spec fn from_spec(v: NoneError) -> Error {
        arbitrary()
    }
}

} // verus!
