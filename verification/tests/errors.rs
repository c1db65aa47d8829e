use lestinia_common::net::error::{PostError, PostErrorInternal};
use lestinia_common::net::post::Error;
use std::io;
use std::sync::mpsc::TryRecvError;

fn serde_failure() -> bincode::Error {
    bincode::deserialize::<u32>(&[1u8]).unwrap_err()
}

#[test]
fn every_cause_has_its_category() {
    let io_err = io::Error::from(io::ErrorKind::ConnectionReset);
    assert_eq!(PostError::from(&PostErrorInternal::Io(io_err)), PostError::Disconnected);
    assert_eq!(
        PostError::from(&PostErrorInternal::Serde(serde_failure())),
        PostError::InvalidMessage
    );
    assert_eq!(
        PostError::from(&PostErrorInternal::MsgSizeLimitExceeded),
        PostError::InvalidMessage
    );
    assert_eq!(PostError::from(&PostErrorInternal::MioError), PostError::InternalError);
    assert_eq!(
        PostError::from(&PostErrorInternal::ChannelRecv(TryRecvError::Disconnected)),
        PostError::InternalError
    );
    assert_eq!(PostError::from(&PostErrorInternal::ChannelSend), PostError::InternalError);
}

#[test]
fn a_cause_by_value_has_the_same_category() {
    assert_eq!(PostError::from(PostErrorInternal::ChannelSend), PostError::InternalError);
    assert_eq!(
        PostError::from(PostErrorInternal::MsgSizeLimitExceeded),
        PostError::InvalidMessage
    );
    let io_err = io::Error::from(io::ErrorKind::BrokenPipe);
    assert_eq!(PostError::from(PostErrorInternal::Io(io_err)), PostError::Disconnected);
}

#[test]
fn outside_errors_become_causes() {
    let cause = PostErrorInternal::from(io::Error::from(io::ErrorKind::BrokenPipe));
    assert!(matches!(&cause, PostErrorInternal::Io(err) if err.kind() == io::ErrorKind::BrokenPipe));
    let cause = PostErrorInternal::from(serde_failure());
    assert!(matches!(cause, PostErrorInternal::Serde(_)));
    let cause = PostErrorInternal::from(TryRecvError::Disconnected);
    assert!(matches!(cause, PostErrorInternal::ChannelRecv(TryRecvError::Disconnected)));
}

#[test]
fn outside_errors_become_categories() {
    assert_eq!(
        PostError::from(io::Error::from(io::ErrorKind::ConnectionReset)),
        PostError::Disconnected
    );
    assert_eq!(PostError::from(serde_failure()), PostError::InvalidMessage);
    assert_eq!(PostError::from(TryRecvError::Empty), PostError::InternalError);
}

#[test]
fn outside_errors_become_kinds() {
    assert_eq!(Error::from(io::Error::from(io::ErrorKind::TimedOut)), Error::Network);
    assert_eq!(Error::from(TryRecvError::Disconnected), Error::Internal);
    assert_eq!(Error::from(*serde_failure()), Error::InvalidMsg);
    let (tx, rx) = mio_extras::channel::channel::<u8>();
    drop(rx);
    assert_eq!(Error::from(tx.send(1).unwrap_err()), Error::Internal);
}

#[test]
fn every_cause_has_its_kind() {
    let io_err = io::Error::from(io::ErrorKind::ConnectionReset);
    assert_eq!(Error::from(&PostErrorInternal::Io(io_err)), Error::Network);
    assert_eq!(Error::from(&PostErrorInternal::Serde(serde_failure())), Error::InvalidMsg);
    assert_eq!(Error::from(&PostErrorInternal::MsgSizeLimitExceeded), Error::InvalidMsg);
    assert_eq!(Error::from(&PostErrorInternal::MioError), Error::Internal);
    assert_eq!(
        Error::from(&PostErrorInternal::ChannelRecv(TryRecvError::Disconnected)),
        Error::Internal
    );
    assert_eq!(Error::from(&PostErrorInternal::ChannelSend), Error::Internal);
    assert_ne!(Error::Disconnect, Error::Network);
}
