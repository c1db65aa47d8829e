//! The channels between an owner and its worker. They come from `mio_extras`,
//! so that a receiving end can be watched for readiness like a socket.

use vstd::prelude::*;

verus! {

/// `mio_extras::channel::Sender`, the sending end of an unbounded channel.
#[verifier::external_type_specification]
#[verifier::external_body]
#[verifier::reject_recursive_types(T)]
pub struct ExSender<T>(mio_extras::channel::Sender<T>);

/// `mio_extras::channel::Receiver`, the receiving end of a channel.
#[verifier::external_type_specification]
#[verifier::external_body]
#[verifier::reject_recursive_types(T)]
pub struct ExReceiver<T>(mio_extras::channel::Receiver<T>);

/// `mio_extras::channel::SendError`, which hands back what could not be sent.
#[verifier::external_type_specification]
#[verifier::external_body]
#[verifier::reject_recursive_types(T)]
pub struct ExSendError<T>(mio_extras::channel::SendError<T>);

/// `mio_extras::channel::Sender::send` puts `t` into the channel without
/// blocking. Whether it succeeds depends on the other end, so nothing is
/// claimed of the result.
pub assume_specification<T>[ mio_extras::channel::Sender::<T>::send ](
    tx: &mio_extras::channel::Sender<T>,
    t: T,
) -> (sent: Result<(), mio_extras::channel::SendError<T>>)
;

/// What a receiving end held at the moment it was asked.
pub enum Arrival<T> {
    /// The oldest item that was waiting.
    Item(T),
    /// Nothing was waiting; the sending end is still there.
    Empty,
    /// Nothing was waiting, and nothing will come: every sending end is gone.
    Closed(std::sync::mpsc::TryRecvError),
}

/// `mio_extras::channel::Receiver::try_recv` takes the oldest waiting item, if
/// there is one, without blocking. What it finds depends on the other end, so
/// nothing is claimed of the result.
#[verifier::external_body]
pub(crate) fn try_recv<T>(rx: &mio_extras::channel::Receiver<T>) -> (got: Arrival<T>) {
    match rx.try_recv() {
        Ok(item) => Arrival::Item(item),
        Err(std::sync::mpsc::TryRecvError::Empty) => Arrival::Empty,
        Err(err) => Arrival::Closed(err),
    }
}

} // verus!
