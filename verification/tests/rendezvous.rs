use inprocess_ipc::channel::{channel, OsIpcSender};
use inprocess_ipc::error::ChannelError;
use inprocess_ipc::server::{OneShotRegistry, OsIpcOneShotServer};
use inprocess_ipc::set::{OsIpcReceiverSet, OsIpcSelectionResult};

#[test]
fn one_shot_rendezvous_delivers_first_message() {
    let registry = OneShotRegistry::new();
    let (server, name) = OsIpcOneShotServer::new(&registry).unwrap();
    let connected = OsIpcSender::connect(&registry, name).unwrap();
    connected.send(b"hello", vec![], vec![]).unwrap();
    let (_receiver, data, endpoints, buffers) = server.accept().unwrap();
    assert_eq!(data, b"hello".to_vec());
    assert_eq!(endpoints.len(), 0);
    assert_eq!(buffers.len(), 0);
}

#[test]
fn accepted_receiver_stays_usable() {
    let registry = OneShotRegistry::new();
    let (server, name) = OsIpcOneShotServer::new(&registry).unwrap();
    let connected = OsIpcSender::connect(&registry, name).unwrap();
    connected.send(b"first", vec![], vec![]).unwrap();
    let (receiver, data, _, _) = server.accept().unwrap();
    assert_eq!(data, b"first".to_vec());
    connected.send(b"second", vec![], vec![]).unwrap();
    let (data, _, _) = receiver.recv().unwrap();
    assert_eq!(data, b"second".to_vec());
}

#[test]
fn connect_on_unpublished_name_is_rejected() {
    let registry = OneShotRegistry::new();
    let err = match OsIpcSender::connect(&registry, String::from("no such name")) {
        Err(e) => e,
        Ok(_) => panic!("expected the connect to be rejected"),
    };
    assert_eq!(err, ChannelError::UnknownError);
}

#[test]
fn connect_after_accept_is_rejected() {
    let registry = OneShotRegistry::new();
    let (server, name) = OsIpcOneShotServer::new(&registry).unwrap();
    let connected = OsIpcSender::connect(&registry, name.clone()).unwrap();
    connected.send(b"hello", vec![], vec![]).unwrap();
    server.accept().unwrap();
    let err = match OsIpcSender::connect(&registry, name) {
        Err(e) => e,
        Ok(_) => panic!("expected the connect to be rejected"),
    };
    assert_eq!(err, ChannelError::UnknownError);
}

#[test]
fn select_reports_pending_data_with_its_id() {
    let mut set = OsIpcReceiverSet::new().unwrap();
    let (tx, rx) = channel().unwrap();
    tx.send(b"ready", vec![], vec![]).unwrap();
    let id = set.add(rx).unwrap();
    let mut events = set.select().unwrap();
    assert_eq!(events.len(), 1);
    let (got_id, data, endpoints, buffers) = events.pop().unwrap().unwrap();
    assert_eq!(got_id, id);
    assert_eq!(data, b"ready".to_vec());
    assert_eq!(endpoints.len(), 0);
    assert_eq!(buffers.len(), 0);
}

#[test]
fn select_retires_a_closed_id_and_keeps_the_rest() {
    let mut set = OsIpcReceiverSet::new().unwrap();
    let (tx_one, rx_one) = channel().unwrap();
    let (tx_two, rx_two) = channel().unwrap();
    let id_one = set.add(rx_one).unwrap();
    let id_two = set.add(rx_two).unwrap();
    assert_ne!(id_one, id_two);
    drop(tx_one);
    let events = set.select().unwrap();
    assert_eq!(events.len(), 1);
    match &events[0] {
        OsIpcSelectionResult::ChannelClosed(id) => assert_eq!(*id, id_one),
        OsIpcSelectionResult::DataReceived(..) => panic!("expected the closed channel"),
    }
    // The retired id is never reported again; the second id stays usable.
    tx_two.send(b"still here", vec![], vec![]).unwrap();
    let events = set.select().unwrap();
    assert_eq!(events.len(), 1);
    match &events[0] {
        OsIpcSelectionResult::DataReceived(id, data, _, _) => {
            assert_eq!(*id, id_two);
            assert_eq!(data, &b"still here".to_vec());
        }
        OsIpcSelectionResult::ChannelClosed(_) => panic!("expected data"),
    }
}

#[test]
fn select_on_empty_set_fails_at_once_with_unknown() {
    let mut set = OsIpcReceiverSet::new().unwrap();
    let err = match set.select() {
        Err(e) => e,
        Ok(_) => panic!("expected the empty set to be rejected"),
    };
    assert_eq!(err, ChannelError::UnknownError);
}

#[test]
fn ids_grow_and_are_never_reused() {
    let mut set = OsIpcReceiverSet::new().unwrap();
    let (tx_one, rx_one) = channel().unwrap();
    let (_tx_two, rx_two) = channel().unwrap();
    let id_one = set.add(rx_one).unwrap();
    drop(tx_one);
    let events = set.select().unwrap();
    assert!(matches!(events[0], OsIpcSelectionResult::ChannelClosed(id) if id == id_one));
    let id_two = set.add(rx_two).unwrap();
    assert!(id_two > id_one);
}
