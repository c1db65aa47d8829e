//! The failures of a connection or listener: what exactly went wrong inside
//! (`PostErrorInternal`), and the category that the owner is told (`PostError`).

use vstd::prelude::*;
use vstd::std_specs::convert::FromSpecImpl;

verus! {

/// `std::io::Error`, carried through as it came from the operating system.
#[verifier::external_type_specification]
#[verifier::external_body]
pub struct ExIoError(std::io::Error);

/// `bincode::ErrorKind`, the reason why a value could not be serialized or a
/// payload could not be deserialized.
#[verifier::external_type_specification]
#[verifier::external_body]
pub struct ExBincodeErrorKind(bincode::ErrorKind);

/// `std::sync::mpsc::TryRecvError`, the reason why a channel handed out nothing.
#[verifier::external_type_specification]
#[verifier::external_body]
pub struct ExTryRecvError(std::sync::mpsc::TryRecvError);

/// The category of a terminal failure, as the owner of a connection or
/// listener sees it.
#[derive(Debug, Clone, Copy, PartialEq, Eq, Structural)]
pub enum PostError {
    /// A frame broke the wire contract: its announced length is beyond the
    /// limit, or its payload is not a value of the expected type.
    InvalidMessage,
    /// The plumbing between the owner and its worker failed.
    InternalError,
    /// The socket failed or the peer went away.
    Disconnected,
}

/// The cause of a terminal failure.
#[derive(Debug)]
pub enum PostErrorInternal {
    /// The operating system reported a failure on the socket.
    Io(std::io::Error),
    /// A value could not be serialized, or a payload could not be deserialized.
    Serde(bincode::Error),
    /// The channel from the worker is broken.
    ChannelRecv(std::sync::mpsc::TryRecvError),
    /// The channel to the worker is broken.
    ChannelSend,
    /// A frame announced a payload beyond the limit.
    MsgSizeLimitExceeded,
    /// The readiness notification failed.
    MioError,
}

impl PostErrorInternal {
    /// The category under which this cause is reported.
    pub open spec fn category(&self) -> PostError {
        match self {
            PostErrorInternal::Io(_) => PostError::Disconnected,
            PostErrorInternal::Serde(_) => PostError::InvalidMessage,
            PostErrorInternal::MsgSizeLimitExceeded => PostError::InvalidMessage,
            PostErrorInternal::MioError => PostError::InternalError,
            PostErrorInternal::ChannelRecv(_) => PostError::InternalError,
            PostErrorInternal::ChannelSend => PostError::InternalError,
        }
    }
}

impl<'a> From<&'a PostErrorInternal> for PostError {
    fn from(err: &'a PostErrorInternal) -> (out: PostError) {
        match err {
            PostErrorInternal::Io(_) => PostError::Disconnected,
            PostErrorInternal::Serde(_) => PostError::InvalidMessage,
            PostErrorInternal::MsgSizeLimitExceeded => PostError::InvalidMessage,
            PostErrorInternal::MioError => PostError::InternalError,
            PostErrorInternal::ChannelRecv(_) => PostError::InternalError,
            PostErrorInternal::ChannelSend => PostError::InternalError,
        }
    }
}

impl<'a> FromSpecImpl<&'a PostErrorInternal> for PostError {
    open spec fn obeys_from_spec() -> bool {
        true
    }

    open spec fn from_spec(err: &'a PostErrorInternal) -> PostError {
        err.category()
    }
}

impl From<PostErrorInternal> for PostError {
    fn from(err: PostErrorInternal) -> (out: PostError) {
        PostError::from(&err)
    }
}

impl FromSpecImpl<PostErrorInternal> for PostError {
    open spec fn obeys_from_spec() -> bool {
        true
    }

    open spec fn from_spec(err: PostErrorInternal) -> PostError {
        err.category()
    }
}

impl From<std::io::Error> for PostErrorInternal {
    fn from(err: std::io::Error) -> (out: PostErrorInternal) {
        PostErrorInternal::Io(err)
    }
}

impl FromSpecImpl<std::io::Error> for PostErrorInternal {
    open spec fn obeys_from_spec() -> bool {
        true
    }

    open spec fn from_spec(err: std::io::Error) -> PostErrorInternal {
        PostErrorInternal::Io(err)
    }
}

impl From<bincode::Error> for PostErrorInternal {
    fn from(err: bincode::Error) -> (out: PostErrorInternal) {
        PostErrorInternal::Serde(err)
    }
}

impl FromSpecImpl<bincode::Error> for PostErrorInternal {
    open spec fn obeys_from_spec() -> bool {
        true
    }

    open spec fn from_spec(err: bincode::Error) -> PostErrorInternal {
        PostErrorInternal::Serde(err)
    }
}

impl From<std::sync::mpsc::TryRecvError> for PostErrorInternal {
    fn from(err: std::sync::mpsc::TryRecvError) -> (out: PostErrorInternal) {
        PostErrorInternal::ChannelRecv(err)
    }
}

impl FromSpecImpl<std::sync::mpsc::TryRecvError> for PostErrorInternal {
    open spec fn obeys_from_spec() -> bool {
        true
    }

    open spec fn from_spec(err: std::sync::mpsc::TryRecvError) -> PostErrorInternal {
        PostErrorInternal::ChannelRecv(err)
    }
}

impl From<std::io::Error> for PostError {
    fn from(err: std::io::Error) -> (out: PostError) {
        PostError::from(&PostErrorInternal::from(err))
    }
}

impl FromSpecImpl<std::io::Error> for PostError {
    open spec fn obeys_from_spec() -> bool {
        true
    }

    open spec fn from_spec(err: std::io::Error) -> PostError {
        PostError::Disconnected
    }
}

impl From<bincode::Error> for PostError {
    fn from(err: bincode::Error) -> (out: PostError) {
        PostError::from(&PostErrorInternal::from(err))
    }
}

impl FromSpecImpl<bincode::Error> for PostError {
    open spec fn obeys_from_spec() -> bool {
        true
    }

    open spec fn from_spec(err: bincode::Error) -> PostError {
        PostError::InvalidMessage
    }
}

impl From<std::sync::mpsc::TryRecvError> for PostError {
    fn from(err: std::sync::mpsc::TryRecvError) -> (out: PostError) {
        PostError::from(&PostErrorInternal::from(err))
    }
}

impl FromSpecImpl<std::sync::mpsc::TryRecvError> for PostError {
    open spec fn obeys_from_spec() -> bool {
        true
    }

    open spec fn from_spec(err: std::sync::mpsc::TryRecvError) -> PostError {
        PostError::InternalError
    }
}

} // verus!
