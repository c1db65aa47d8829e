//! What the owner of a connection or listener does with the results that its
//! worker hands over: deliver them in order until the first failure, and keep
//! that failure for good.

use vstd::prelude::*;
use vstd::std_specs::convert::FromSpecImpl;
use crate::net::channel::{try_recv, Arrival};
use crate::net::error::{PostError, PostErrorInternal};

verus! {

/// The kind of a terminal failure, in a form that can be copied and compared.
#[derive(Debug, Clone, Copy, PartialEq, Eq, Structural)]
pub enum Error {
    /// The peer closed the connection.
    Disconnect,
    /// The operating system reported a failure on the socket.
    Network,
    /// A frame broke the wire contract.
    InvalidMsg,
    /// The plumbing between the owner and its worker failed.
    Internal,
}

impl PostErrorInternal {
    /// The kind under which this cause is reported.
    pub open spec fn kind(&self) -> Error {
        match self {
            PostErrorInternal::Io(_) => Error::Network,
            PostErrorInternal::Serde(_) => Error::InvalidMsg,
            PostErrorInternal::MsgSizeLimitExceeded => Error::InvalidMsg,
            PostErrorInternal::MioError => Error::Internal,
            PostErrorInternal::ChannelRecv(_) => Error::Internal,
            PostErrorInternal::ChannelSend => Error::Internal,
        }
    }
}

impl From<std::io::Error> for Error {
    fn from(_err: std::io::Error) -> (out: Error) {
        Error::Network
    }
}

impl FromSpecImpl<std::io::Error> for Error {
    open spec fn obeys_from_spec() -> bool {
        true
    }

    open spec fn from_spec(_err: std::io::Error) -> Error {
        Error::Network
    }
}

impl From<std::sync::mpsc::TryRecvError> for Error {
    fn from(_err: std::sync::mpsc::TryRecvError) -> (out: Error) {
        Error::Internal
    }
}

impl FromSpecImpl<std::sync::mpsc::TryRecvError> for Error {
    open spec fn obeys_from_spec() -> bool {
        true
    }

    open spec fn from_spec(_err: std::sync::mpsc::TryRecvError) -> Error {
        Error::Internal
    }
}

impl From<bincode::ErrorKind> for Error {
    fn from(_err: bincode::ErrorKind) -> (out: Error) {
        Error::InvalidMsg
    }
}

impl FromSpecImpl<bincode::ErrorKind> for Error {
    open spec fn obeys_from_spec() -> bool {
        true
    }

    open spec fn from_spec(_err: bincode::ErrorKind) -> Error {
        Error::InvalidMsg
    }
}

impl<T> From<mio_extras::channel::SendError<T>> for Error {
    fn from(_err: mio_extras::channel::SendError<T>) -> (out: Error) {
        Error::Internal
    }
}

impl<T> FromSpecImpl<mio_extras::channel::SendError<T>> for Error {
    open spec fn obeys_from_spec() -> bool {
        true
    }

    open spec fn from_spec(_err: mio_extras::channel::SendError<T>) -> Error {
        Error::Internal
    }
}

impl<'a> From<&'a PostErrorInternal> for Error {
    fn from(err: &'a PostErrorInternal) -> (out: Error) {
        match err {
            PostErrorInternal::Io(_) => Error::Network,
            PostErrorInternal::Serde(_) => Error::InvalidMsg,
            PostErrorInternal::MsgSizeLimitExceeded => Error::InvalidMsg,
            PostErrorInternal::MioError => Error::Internal,
            PostErrorInternal::ChannelRecv(_) => Error::Internal,
            PostErrorInternal::ChannelSend => Error::Internal,
        }
    }
}

impl<'a> FromSpecImpl<&'a PostErrorInternal> for Error {
    open spec fn obeys_from_spec() -> bool {
        true
    }

    open spec fn from_spec(err: &'a PostErrorInternal) -> Error {
        err.kind()
    }
}

/// The payloads or connections that the owner is handed when its result
/// channel gave out `log`, oldest first: those that arrived before the first
/// failure or pause, in their order of arrival.
pub open spec fn delivered<T>(log: Seq<Arrival<Result<T, PostErrorInternal>>>) -> Seq<T>
    decreases log.len(),
{
    if log.len() == 0 {
        Seq::empty()
    } else {
        match log[0] {
            Arrival::Item(Ok(item)) => seq![item] + delivered(log.skip(1)),
            _ => Seq::empty(),
        }
    }
}

/// The failure that the owner records when its result channel gave out `log`:
/// the first one that the worker reported or that the channel itself raised,
/// if the log reaches one before it runs dry.
pub open spec fn verdict<T>(log: Seq<Arrival<Result<T, PostErrorInternal>>>) -> Option<
    PostErrorInternal,
>
    decreases log.len(),
{
    if log.len() == 0 {
        None
    } else {
        match log[0] {
            Arrival::Item(Ok(_)) => verdict(log.skip(1)),
            Arrival::Item(Err(cause)) => Some(cause),
            Arrival::Empty => None,
            Arrival::Closed(err) => Some(PostErrorInternal::ChannelRecv(err)),
        }
    }
}

/// Whether `log` holds nothing but results that are delivered.
pub open spec fn all_ok<T>(log: Seq<Arrival<Result<T, PostErrorInternal>>>) -> bool {
    forall|i: int| 0 <= i < log.len() ==> (#[trigger] log[i]) is Item && log[i]->Item_0 is Ok
}

/// Records `cause` as the terminal failure unless one is recorded already: the
/// first failure stays.
pub fn fail(err: &mut Option<PostErrorInternal>, cause: PostErrorInternal)
    ensures
        *old(err) is Some ==> *final(err) == *old(err),
        *old(err) is None ==> *final(err) == Some(cause),
{
    if err.is_none() {
        *err = Some(cause);
    }
}

/// Takes note of how handing a value to the worker went. With a failure on
/// record the answer is that failure's category, whatever `sent` says. A
/// channel that took the value is a success; one that did not is recorded as
/// a failure of the plumbing.
pub fn settle_send<T>(
    err: &mut Option<PostErrorInternal>,
    sent: Result<(), mio_extras::channel::SendError<T>>,
) -> (out: Result<(), PostError>)
    ensures
        *old(err) is Some ==> *final(err) == *old(err) && out == Err::<(), PostError>(
            old(err)->Some_0.category(),
        ),
        *old(err) is None && sent is Ok ==> *final(err) is None && out is Ok,
        *old(err) is None && sent is Err ==> *final(err) == Some(PostErrorInternal::MioError)
            && out == Err::<(), PostError>(PostError::InternalError),
{
    match err {
        Some(cause) => Err(PostError::from(&*cause)),
        None => match sent {
            Ok(()) => Ok(()),
            Err(_) => {
                *err = Some(PostErrorInternal::MioError);
                Err(PostError::InternalError)
            },
        },
    }
}

/// Takes in one thing that the result channel handed out. Says whether the
/// channel is to be asked again.
pub fn absorb<T>(
    err: &mut Option<PostErrorInternal>,
    items: &mut Vec<T>,
    arrival: Arrival<Result<T, PostErrorInternal>>,
) -> (more: bool)
    ensures
        *old(err) is Some ==> !more && *final(err) == *old(err) && final(items)@ == old(items)@,
        *old(err) is None ==> match arrival {
            Arrival::Item(Ok(item)) => {
                &&& more
                &&& *final(err) is None
                &&& final(items)@ == old(items)@.push(item)
            },
            Arrival::Item(Err(cause)) => {
                &&& !more
                &&& *final(err) == Some(cause)
                &&& final(items)@ == old(items)@
            },
            Arrival::Empty => {
                &&& !more
                &&& *final(err) is None
                &&& final(items)@ == old(items)@
            },
            Arrival::Closed(gone) => {
                &&& !more
                &&& *final(err) == Some(PostErrorInternal::ChannelRecv(gone))
                &&& final(items)@ == old(items)@
            },
        },
{
    if err.is_some() {
        return false;
    }
    match arrival {
        Arrival::Item(Ok(item)) => {
            items.push(item);
            true
        },
        Arrival::Item(Err(cause)) => {
            *err = Some(cause);
            false
        },
        Arrival::Empty => false,
        Arrival::Closed(gone) => {
            *err = Some(PostErrorInternal::from(gone));
            false
        },
    }
}

/// Empties the result channel into a list, oldest first, up to the first
/// failure. With a failure on record it does nothing: a failed connection or
/// listener delivers no more.
pub fn drain<T>(
    rx: &mio_extras::channel::Receiver<Result<T, PostErrorInternal>>,
    err: &mut Option<PostErrorInternal>,
) -> (items: Vec<T>)
    ensures
        *old(err) is Some ==> items@.len() == 0 && *final(err) == *old(err),
        *old(err) is None ==> exists|log: Seq<Arrival<Result<T, PostErrorInternal>>>|
            items@ == #[trigger] delivered(log) && *final(err) == verdict(log),
{
    let mut items: Vec<T> = Vec::new();
    if err.is_some() {
        return items;
    }
    let ghost mut log: Seq<Arrival<Result<T, PostErrorInternal>>> = Seq::empty();
    let mut more: bool = true;
    while more && items.len() < usize::MAX
        invariant
            *old(err) is None,
            more ==> *err is None && all_ok(log),
            items@ == delivered(log),
            *err == verdict(log),
        decreases (if more { 1int } else { 0int }) + usize::MAX - items@.len(),
    {
        let arrival = try_recv(rx);
        proof {
            lemma_log_push(log, arrival);
            lemma_log_one(arrival);
            assert(items@ + Seq::<T>::empty() =~= items@);
            if arrival is Item && arrival->Item_0 is Ok {
                let item = arrival->Item_0->Ok_0;
                assert(items@ + seq![item] =~= items@.push(item));
            }
            log = log.push(arrival);
        }
        more = absorb(err, &mut items, arrival);
    }
    items
}

/// How a single arrival is judged.
pub proof fn lemma_log_one<T>(arrival: Arrival<Result<T, PostErrorInternal>>)
    ensures
        delivered(seq![arrival]) == match arrival {
            Arrival::Item(Ok(item)) => seq![item],
            _ => Seq::empty(),
        },
        verdict(seq![arrival]) == match arrival {
            Arrival::Item(Ok(_)) => None,
            Arrival::Item(Err(cause)) => Some(cause),
            Arrival::Empty => None,
            Arrival::Closed(gone) => Some(PostErrorInternal::ChannelRecv(gone)),
        },
{
    let one = seq![arrival];
    assert(one[0] == arrival);
    assert(one.skip(1) =~= Seq::empty());
    assert(delivered(one.skip(1)) =~= Seq::<T>::empty());
    assert(verdict(one.skip(1)) is None);
    if let Arrival::Item(Ok(item)) = arrival {
        assert(seq![item] + Seq::<T>::empty() =~= seq![item]);
    }
}

/// One more arrival behind a log of delivered results is judged on its own.
pub proof fn lemma_log_push<T>(
    log: Seq<Arrival<Result<T, PostErrorInternal>>>,
    arrival: Arrival<Result<T, PostErrorInternal>>,
)
    requires
        all_ok(log),
    ensures
        delivered(log.push(arrival)) == delivered(log) + delivered(seq![arrival]),
        verdict(log.push(arrival)) == verdict(seq![arrival]),
        verdict(log) is None,
        arrival is Item && arrival->Item_0 is Ok ==> all_ok(log.push(arrival)),
    decreases log.len(),
{
    let one = seq![arrival];
    assert(one.skip(1) =~= Seq::empty());
    if log.len() == 0 {
        assert(log.push(arrival) =~= one);
        assert(delivered(log) + delivered(one) =~= delivered(one));
    } else {
        let later = log.skip(1);
        assert(log[0] is Item && log[0]->Item_0 is Ok);
        assert(all_ok(later)) by {
            assert forall|i: int| 0 <= i < later.len() implies (#[trigger] later[i]) is Item
                && later[i]->Item_0 is Ok by {
                assert(later[i] == log[i + 1]);
            }
        }
        lemma_log_push(later, arrival);
        assert(log.push(arrival).skip(1) =~= later.push(arrival));
        assert(log.push(arrival)[0] == log[0]);
        assert(seq![log[0]->Item_0->Ok_0] + (delivered(later) + delivered(one)) =~= (seq![
            log[0]->Item_0->Ok_0,
        ] + delivered(later)) + delivered(one));
    }
}

/// A failure is final: whatever the channel hands out after it, the owner is
/// given nothing more and keeps the failure it has.
pub proof fn lemma_failure_is_final<T>(
    log: Seq<Arrival<Result<T, PostErrorInternal>>>,
    later: Seq<Arrival<Result<T, PostErrorInternal>>>,
)
    requires
        verdict(log) is Some,
    ensures
        delivered(log + later) == delivered(log),
        verdict(log + later) == verdict(log),
    decreases log.len(),
{
    if log.len() > 0 {
        assert((log + later)[0] == log[0]);
        assert((log + later).skip(1) =~= log.skip(1) + later);
        match log[0] {
            Arrival::Item(Ok(_)) => {
                lemma_failure_is_final(log.skip(1), later);
            },
            _ => {},
        }
    }
}

/// The log of a channel that handed out `items`, each as a success, and
/// nothing else.
pub open spec fn arrived<T>(items: Seq<T>) -> Seq<Arrival<Result<T, PostErrorInternal>>> {
    Seq::new(items.len(), |i: int| Arrival::Item(Ok::<T, PostErrorInternal>(items[i])))
}

/// Results are delivered completely and in the order in which the worker
/// handed them over.
pub proof fn lemma_delivered_in_order<T>(items: Seq<T>)
    ensures
        all_ok(arrived(items)),
        delivered(arrived(items)) == items,
        verdict(arrived(items)) is None,
    decreases items.len(),
{
    let log = arrived(items);
    if items.len() == 0 {
        assert(delivered(log) =~= items);
    } else {
        let rest = items.skip(1);
        lemma_delivered_in_order(rest);
        assert(log.skip(1) =~= arrived(rest));
        assert(seq![items[0]] + rest =~= items);
    }
}

/// A failure that the worker reports reaches the owner behind everything that
/// was received before it, and ends the delivery: of what the channel hands
/// out afterwards, nothing is delivered.
pub proof fn lemma_failure_ends_delivery<T>(
    items: Seq<T>,
    cause: PostErrorInternal,
    later: Seq<Arrival<Result<T, PostErrorInternal>>>,
)
    ensures
        delivered(arrived(items).push(Arrival::Item(Err(cause))) + later) == items,
        verdict(arrived(items).push(Arrival::Item(Err(cause))) + later) == Some(cause),
{
    let failure = Arrival::Item(Err::<T, PostErrorInternal>(cause));
    lemma_delivered_in_order(items);
    lemma_log_push(arrived(items), failure);
    lemma_log_one(failure);
    assert(items + Seq::<T>::empty() =~= items);
    lemma_failure_is_final(arrived(items).push(failure), later);
}

} // verus!
