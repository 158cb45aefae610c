use inprocess_ipc::buffer::OsIpcSharedMemory;
use inprocess_ipc::channel::{channel, OsIpcChannel, OsIpcSender};
use inprocess_ipc::error::ChannelError;

fn expect_err<T>(r: Result<T, ChannelError>) -> ChannelError {
    match r {
        Err(e) => e,
        Ok(_) => panic!("expected an error"),
    }
}

#[test]
fn from_byte_fills_every_position() {
    let buf = OsIpcSharedMemory::from_byte(7, 4);
    assert_eq!(buf.bytes(), &[7u8, 7, 7, 7]);
}

#[test]
fn from_byte_empty() {
    let buf = OsIpcSharedMemory::from_byte(9, 0);
    assert_eq!(buf.bytes().len(), 0);
}

#[test]
fn buffers_equal_by_content_not_allocation() {
    let a = OsIpcSharedMemory::from_bytes(&[1, 2, 3]);
    let b = OsIpcSharedMemory::from_bytes(&[1, 2, 3]);
    assert!(a == b);
    let c = OsIpcSharedMemory::from_bytes(&[1, 2, 4]);
    assert!(a != c);
    let d = OsIpcSharedMemory::from_bytes(&[1, 2]);
    assert!(a != d);
}

#[test]
fn clone_reads_identical_bytes() {
    let buf = OsIpcSharedMemory::from_bytes(&[5, 6, 7, 8]);
    let copy = buf.clone();
    assert_eq!(buf.bytes(), copy.bytes());
    assert!(buf == copy);
}

#[test]
fn channel_is_closed_only_for_channel_closed() {
    assert!(ChannelError::ChannelClosedError.channel_is_closed());
    assert!(!ChannelError::BrokenPipeError.channel_is_closed());
    assert!(!ChannelError::UnknownError.channel_is_closed());
}

#[test]
fn send_recv_roundtrip() {
    let (tx, rx) = channel().unwrap();
    let region = OsIpcSharedMemory::from_bytes(&[9, 9]);
    tx.send(b"payload", vec![], vec![region]).unwrap();
    let (data, endpoints, buffers) = rx.recv().unwrap();
    assert_eq!(data, b"payload".to_vec());
    assert_eq!(endpoints.len(), 0);
    assert_eq!(buffers.len(), 1);
    assert_eq!(buffers[0].bytes(), &[9u8, 9]);
}

#[test]
fn messages_arrive_in_send_order() {
    let (tx, rx) = channel().unwrap();
    for i in 0u8..5 {
        tx.send(&[i], vec![], vec![]).unwrap();
    }
    for i in 0u8..5 {
        let (data, _, _) = rx.recv().unwrap();
        assert_eq!(data, vec![i]);
    }
}

#[test]
fn each_sender_clone_preserves_its_own_order() {
    let (tx_a, rx) = channel().unwrap();
    let tx_b = tx_a.clone();
    tx_a.send(b"a1", vec![], vec![]).unwrap();
    tx_b.send(b"b1", vec![], vec![]).unwrap();
    tx_a.send(b"a2", vec![], vec![]).unwrap();
    tx_b.send(b"b2", vec![], vec![]).unwrap();
    let mut from_a = Vec::new();
    let mut from_b = Vec::new();
    for _ in 0..4 {
        let (data, _, _) = rx.recv().unwrap();
        if data[0] == b'a' {
            from_a.push(data);
        } else {
            from_b.push(data);
        }
    }
    assert_eq!(from_a, vec![b"a1".to_vec(), b"a2".to_vec()]);
    assert_eq!(from_b, vec![b"b1".to_vec(), b"b2".to_vec()]);
}

#[test]
fn closed_after_senders_gone_and_drained() {
    let (tx, rx) = channel().unwrap();
    tx.send(b"last", vec![], vec![]).unwrap();
    drop(tx);
    let (data, _, _) = rx.recv().unwrap();
    assert_eq!(data, b"last".to_vec());
    assert_eq!(expect_err(rx.recv()), ChannelError::ChannelClosedError);
    assert_eq!(expect_err(rx.try_recv()), ChannelError::ChannelClosedError);
}

#[test]
fn broken_pipe_after_receiver_gone() {
    let (tx, rx) = channel().unwrap();
    drop(rx);
    let err = expect_err(tx.send(b"too late", vec![], vec![]));
    assert_eq!(err, ChannelError::BrokenPipeError);
}

#[test]
fn try_recv_on_open_empty_channel_is_unknown() {
    let (tx, rx) = channel().unwrap();
    assert_eq!(expect_err(rx.try_recv()), ChannelError::UnknownError);
    drop(tx);
}

#[test]
fn consume_transfers_the_receiving_resource() {
    let (tx, mut rx) = channel().unwrap();
    let moved = rx.consume();
    tx.send(b"via moved", vec![], vec![]).unwrap();
    let (data, _, _) = moved.recv().unwrap();
    assert_eq!(data, b"via moved".to_vec());
}

#[test]
fn sender_travels_inside_a_message() {
    let (tx_main, rx_main) = channel().unwrap();
    let (tx_aux, rx_aux) = channel().unwrap();
    tx_main
        .send(b"carrying", vec![OsIpcChannel::Sender(tx_aux)], vec![])
        .unwrap();
    let (_, mut endpoints, _) = rx_main.recv().unwrap();
    assert_eq!(endpoints.len(), 1);
    assert!(endpoints[0].is_sender());
    assert!(!endpoints[0].is_receiver());
    let forwarded = endpoints[0].to_sender();
    assert!(!endpoints[0].is_sender());
    forwarded.send(b"through aux", vec![], vec![]).unwrap();
    let (data, _, _) = rx_aux.recv().unwrap();
    assert_eq!(data, b"through aux".to_vec());
}

#[test]
fn receiver_travels_inside_a_message() {
    let (tx_main, rx_main) = channel().unwrap();
    let (tx_aux, mut rx_aux) = channel().unwrap();
    let moved = rx_aux.consume();
    tx_main
        .send(b"carrying", vec![OsIpcChannel::Receiver(moved)], vec![])
        .unwrap();
    tx_aux.send(b"queued early", vec![], vec![]).unwrap();
    let (_, mut endpoints, _) = rx_main.recv().unwrap();
    assert_eq!(endpoints.len(), 1);
    assert!(endpoints[0].is_receiver());
    let forwarded = endpoints[0].to_receiver();
    assert!(!endpoints[0].is_receiver());
    let (data, _, _) = forwarded.recv().unwrap();
    assert_eq!(data, b"queued early".to_vec());
}

#[test]
fn max_fragment_size_is_unbounded() {
    assert_eq!(OsIpcSender::get_max_fragment_size(), usize::MAX);
}
