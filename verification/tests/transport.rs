use lestinia_common::net::data::ControlMsg;
use lestinia_common::net::error::{PostError, PostErrorInternal};
use lestinia_common::net::post::Error;
use lestinia_common::net::postbox::{Outgoing, PostBox, PostBoxWorker};
use lestinia_common::net::postoffice::PostOffice;
use lestinia_common::net::worker::Worker;
use mio_extras::channel::{channel, Receiver, Sender};
use serde::de::DeserializeOwned;
use serde::Serialize;
use std::sync::mpsc::TryRecvError;

/// One end of a connection without its socket: the owner's postbox, and the
/// worker with the channel ends that a worker thread would hold.
struct End<S, R> {
    postbox: PostBox<S, R>,
    worker: PostBoxWorker,
    ctrl_rx: Receiver<ControlMsg>,
    send_rx: Receiver<S>,
    recv_tx: Sender<Result<R, PostErrorInternal>>,
}

fn end<S, R>() -> End<S, R> {
    let (ctrl_tx, ctrl_rx) = channel();
    let (send_tx, send_rx) = channel();
    let (recv_tx, recv_rx) = channel();
    End {
        postbox: PostBox::from_channels(ctrl_tx, send_tx, recv_rx),
        worker: PostBoxWorker::new(),
        ctrl_rx,
        send_rx,
        recv_tx,
    }
}

fn report<S, R>(end: &End<S, R>, cause: Option<PostErrorInternal>) {
    if let Some(cause) = cause {
        let _ = end.recv_tx.send(Err(cause));
    }
}

/// Runs the worker over its outbound queue; hands back what it writes.
fn written<S: Serialize, R>(end: &mut End<S, R>) -> Vec<u8> {
    let mut wire = Vec::new();
    loop {
        match end.send_rx.try_recv() {
            Ok(value) => match end.worker.on_outbound(bincode::serialize(&value)) {
                Outgoing::Write(bytes) => wire.extend(bytes),
                Outgoing::Report(cause) => report(end, Some(cause)),
                Outgoing::Skip => {}
            },
            Err(TryRecvError::Empty) => break,
            Err(gone) => {
                let cause = end.worker.on_outbound_closed(gone);
                report(end, cause);
                break;
            }
        }
    }
    wire
}

/// Hands `bytes` to the worker as one read from the socket.
fn read<S, R: DeserializeOwned>(end: &mut End<S, R>, bytes: &[u8]) {
    let got = end.worker.on_read(bytes);
    let mut corrupt = None;
    for payload in &got.payloads {
        match bincode::deserialize(payload) {
            Ok(msg) => {
                let _ = end.recv_tx.send(Ok(msg));
            }
            Err(why) => {
                corrupt = Some(why);
                break;
            }
        }
    }
    let cause = end.worker.settle(got.oversize, corrupt);
    report(end, cause);
}

/// Tells the worker that its peer closed the connection.
fn hang_up<S, R>(end: &mut End<S, R>) {
    let eof = std::io::Error::from(std::io::ErrorKind::UnexpectedEof);
    let cause = end.worker.on_closed(eof);
    report(end, cause);
}

type Office<S, R> = (
    PostOffice<End<S, R>>,
    Worker,
    Receiver<ControlMsg>,
    Sender<Result<End<S, R>, PostErrorInternal>>,
);

fn office<S, R>() -> Office<S, R> {
    let (ctrl_tx, ctrl_rx) = channel();
    let (conn_tx, conn_rx) = channel();
    (PostOffice::from_channels(ctrl_tx, conn_rx), Worker::new(), ctrl_rx, conn_tx)
}

/// Lets the listener accept one connection; hands back the dialling end.
fn dial<S, R>(office: &mut Office<S, R>) -> End<R, S> {
    if let Some(made) = office.1.on_accepted(Ok(end())) {
        let _ = office.3.send(made);
    }
    end()
}

#[test]
fn connect() {
    let mut postoffice = office::<u32, f32>();

    assert_eq!(postoffice.0.new_connections().len(), 0);
    assert_eq!(postoffice.0.error(), None);

    let _postbox = dial(&mut postoffice);

    let incoming = postoffice.0.new_connections();

    assert_eq!(incoming.len(), 1);
    assert_eq!(postoffice.0.error(), None);
}

#[test]
fn connection_count() {
    let mut postoffice = office::<u32, f32>();
    let mut postboxes = Vec::new();

    assert_eq!(postoffice.0.new_connections().len(), 0);
    assert_eq!(postoffice.0.error(), None);

    for _ in 0..5 {
        postboxes.push(dial(&mut postoffice));
    }

    let incoming = postoffice.0.new_connections();

    assert_eq!(incoming.len(), 5);
    assert_eq!(postoffice.0.error(), None);
}

#[test]
fn post_disconnect() {
    let mut postoffice = office::<u32, f32>();

    let mut server_postbox = {
        let _client_postbox = dial(&mut postoffice);

        let mut incoming = postoffice.0.new_connections().into_iter();

        assert_eq!(incoming.len(), 1);
        assert_eq!(postoffice.0.error(), None);

        incoming.next().unwrap()
    };

    hang_up(&mut server_postbox);

    let incoming_msgs = server_postbox.postbox.new_messages();

    assert_eq!(incoming_msgs.len(), 0);
    assert_eq!(server_postbox.postbox.error(), Some(Error::Network));
}

#[test]
fn client_to_server() {
    let mut po = office::<u32, f32>();
    let mut client_pb = dial(&mut po);

    let mut server_pb = po.0.new_connections().into_iter().next().unwrap();

    assert_eq!(client_pb.postbox.send(1337.0), Ok(()));
    assert_eq!(client_pb.postbox.send(9821.0), Ok(()));
    assert_eq!(client_pb.postbox.send(-3.2), Ok(()));
    assert_eq!(client_pb.postbox.send(17.0), Ok(()));

    let wire = written(&mut client_pb);
    read(&mut server_pb, &wire);

    let mut incoming_msgs = server_pb.postbox.new_messages().into_iter();

    assert_eq!(incoming_msgs.len(), 4);
    assert_eq!(incoming_msgs.next().unwrap(), 1337.0);
    assert_eq!(incoming_msgs.next().unwrap(), 9821.0);
    assert_eq!(incoming_msgs.next().unwrap(), -3.2);
    assert_eq!(incoming_msgs.next().unwrap(), 17.0);
}

#[test]
fn server_to_client() {
    let mut po = office::<u32, f32>();
    let mut client_pb = dial(&mut po);

    let mut server_pb = po.0.new_connections().into_iter().next().unwrap();

    assert_eq!(server_pb.postbox.send(1337), Ok(()));
    assert_eq!(server_pb.postbox.send(9821), Ok(()));
    assert_eq!(server_pb.postbox.send(39999999), Ok(()));
    assert_eq!(server_pb.postbox.send(17), Ok(()));

    let wire = written(&mut server_pb);
    read(&mut client_pb, &wire);

    let mut incoming_msgs = client_pb.postbox.new_messages().into_iter();

    assert_eq!(incoming_msgs.len(), 4);
    assert_eq!(incoming_msgs.next().unwrap(), 1337);
    assert_eq!(incoming_msgs.next().unwrap(), 9821);
    assert_eq!(incoming_msgs.next().unwrap(), 39999999);
    assert_eq!(incoming_msgs.next().unwrap(), 17);
}

#[test]
fn basic_run() {
    let mut server = office::<String, String>();
    let mut client = dial(&mut server);

    let mut scon = server.0.new_connections().into_iter().next().unwrap();

    scon.postbox.send(String::from("foo")).unwrap();
    client.postbox.send(String::from("bar")).unwrap();

    let to_client = written(&mut scon);
    let to_server = written(&mut client);
    read(&mut client, &to_client);
    read(&mut scon, &to_server);

    assert_eq!("foo", client.postbox.new_messages().into_iter().next().unwrap());
    assert_eq!("bar", scon.postbox.new_messages().into_iter().next().unwrap());
}

#[test]
fn huge_size_header() {
    let mut server = office::<String, String>();
    let _client = dial(&mut server);

    let mut scon = server.0.new_connections().into_iter().next().unwrap();

    read(&mut scon, &[0xffu8; 64]);

    assert_eq!(scon.postbox.new_messages().into_iter().next(), None);
    assert_eq!(scon.postbox.status(), Some(PostError::InvalidMessage));
}

#[test]
fn test_disconnect() {
    let mut server = office::<String, String>();

    {
        let _client = dial(&mut server);
    }

    let mut to_client = server.0.new_connections().into_iter().next().unwrap();

    to_client.postbox.send(String::from("foo")).unwrap();
    let _ = written(&mut to_client);
    hang_up(&mut to_client);

    match to_client.postbox.new_messages().into_iter().next() {
        None => {}

        _ => panic!("unexpected message"),
    }

    match to_client.postbox.status() {
        Some(PostError::Disconnected) => {}

        s => panic!("{:?} was not expected", s),
    }
}

#[test]
fn a_dialled_connection_delivers_1337() {
    let mut server = office::<u32, u32>();
    let mut client = dial(&mut server);

    let mut accepted = server.0.new_connections();
    assert_eq!(accepted.len(), 1);
    let mut link = accepted.remove(0);

    client.postbox.send(1337).unwrap();
    let wire = written(&mut client);
    assert_eq!(wire, vec![4, 0, 0, 0, 0, 0, 0, 0, 0x39, 0x05, 0, 0]);
    read(&mut link, &wire);

    assert_eq!(link.postbox.new_messages(), vec![1337]);
    assert_eq!(link.postbox.new_messages(), Vec::<u32>::new());
    assert_eq!(link.postbox.status(), None);
}

#[test]
fn values_split_across_reads_arrive_whole_and_in_order() {
    let mut from = end::<String, String>();
    let mut to = end::<String, String>();
    let sent: Vec<String> = (0..20).map(|i| format!("message number {}", i)).collect();
    for value in &sent {
        from.postbox.send(value.clone()).unwrap();
    }
    let wire = written(&mut from);
    let mut seen = Vec::new();
    for piece in wire.chunks(7) {
        read(&mut to, piece);
        seen.extend(to.postbox.new_messages());
    }
    assert_eq!(seen, sent);
    assert_eq!(to.postbox.status(), None);
}

#[test]
fn an_oversize_frame_ends_the_connection_for_good() {
    let mut from = end::<u32, u32>();
    let mut to = end::<u32, u32>();
    from.postbox.send(1).unwrap();
    from.postbox.send(2).unwrap();
    let good = written(&mut from);
    let mut wire = good.clone();
    wire.extend_from_slice(&((1u64 << 20) + 1).to_le_bytes());
    wire.extend_from_slice(&good);
    read(&mut to, &wire);
    assert_eq!(to.postbox.new_messages(), vec![1, 2]);
    assert_eq!(to.postbox.status(), Some(PostError::InvalidMessage));
    assert_eq!(to.postbox.error(), Some(Error::InvalidMsg));
    read(&mut to, &good);
    assert_eq!(to.postbox.new_messages(), Vec::<u32>::new());
    assert_eq!(to.postbox.status(), Some(PostError::InvalidMessage));
}

#[test]
fn a_payload_of_another_type_ends_the_connection() {
    let mut from = end::<u8, u8>();
    let mut to = end::<u8, u32>();
    from.postbox.send(1).unwrap();
    let wire = written(&mut from);
    read(&mut to, &wire);
    assert_eq!(to.postbox.new_messages(), Vec::<u32>::new());
    assert_eq!(to.postbox.status(), Some(PostError::InvalidMessage));
    assert!(!to.worker.is_running());
}

#[test]
fn only_one_failure_reaches_the_owner() {
    let mut to = end::<u32, u32>();
    read(&mut to, &[0xffu8; 8]);
    read(&mut to, &[0xffu8; 8]);
    hang_up(&mut to);
    assert!(to.worker.report(PostErrorInternal::MioError).is_none());
    assert_eq!(to.postbox.new_messages(), Vec::<u32>::new());
    assert_eq!(to.postbox.status(), Some(PostError::InvalidMessage));
    let End { postbox, recv_tx, .. } = to;
    drop(recv_tx);
    drop(postbox);
}

#[test]
fn a_unit_value_makes_the_round_trip() {
    let mut from = end::<(), ()>();
    let mut to = end::<(), ()>();
    from.postbox.send(()).unwrap();
    from.postbox.send(()).unwrap();
    let wire = written(&mut from);
    assert_eq!(wire, vec![0u8; 16]);
    read(&mut to, &wire);
    assert_eq!(to.postbox.new_messages(), vec![(), ()]);
}

#[test]
fn shutdown_reaches_the_worker() {
    let mut link = end::<u32, u32>();
    link.postbox.shutdown();
    link.postbox.shutdown();
    assert!(link.worker.check_control(&link.ctrl_rx).is_none());
    assert!(link.worker.is_stopped());
    assert!(link.worker.check_control(&link.ctrl_rx).is_none());
    assert!(link.worker.is_stopped());
}
