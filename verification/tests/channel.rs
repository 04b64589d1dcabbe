use atris::comms::{AtrisChannel, AtrisChannelParts, FrameOutcome, Polled, SendError, TryReceiveError, TryRecvError, QUEUE_CAPACITY};
use atris::encrypted::{DecryptionError, Encrypted, EncryptionError};
use atris::key::CipherKey;
use atris::wire::Wire;

fn pair() -> (AtrisChannel<String>, AtrisChannel<String>) {
    let k = CipherKey::generate();
    let a = AtrisChannel::new(AtrisChannelParts::new(), k.as_cipher());
    let b = AtrisChannel::new(AtrisChannelParts::new(), k.as_cipher());
    (a, b)
}

fn carry(from: &mut AtrisChannel<String>, to: &mut AtrisChannel<String>) -> usize {
    let mut n = 0;
    while let Some(frame) = from.next_frame() {
        assert_eq!(to.accept_frame(&frame), FrameOutcome::Queued);
        n += 1;
    }
    n
}

#[test]
fn hello_arrives_as_hello() {
    let (mut a, mut b) = pair();
    a.send("hello".to_string()).unwrap();
    assert_eq!(carry(&mut a, &mut b), 1);
    assert_eq!(b.try_receive().unwrap(), "hello");
    assert_eq!(b.try_receive().err(), Some(TryReceiveError::Emp(TryRecvError::Empty)));
}

#[test]
fn messages_arrive_in_the_order_sent() {
    let (mut a, mut b) = pair();
    for i in 0..QUEUE_CAPACITY {
        a.send(format!("message {i}")).unwrap();
    }
    assert_eq!(carry(&mut a, &mut b), QUEUE_CAPACITY);
    for i in 0..QUEUE_CAPACITY {
        assert_eq!(b.try_receive().unwrap(), format!("message {i}"));
    }
}

#[test]
fn both_directions_work() {
    let (mut a, mut b) = pair();
    a.send("From terrior".to_string()).unwrap();
    carry(&mut a, &mut b);
    assert_eq!(b.try_receive().unwrap(), "From terrior");
    b.send("From terrior2".to_string()).unwrap();
    carry(&mut b, &mut a);
    assert_eq!(a.try_receive().unwrap(), "From terrior2");
}

#[test]
fn a_corrupt_frame_is_dropped_and_the_channel_lives_on() {
    let (mut a, mut b) = pair();
    a.send("first".to_string()).unwrap();
    a.send("second".to_string()).unwrap();
    let first = a.next_frame().unwrap();
    let second = a.next_frame().unwrap();
    assert_eq!(b.accept_frame(&first), FrameOutcome::Queued);
    assert_eq!(b.accept_frame(&first[..first.len() - 1]), FrameOutcome::Dropped);
    assert_eq!(b.accept_frame(&[]), FrameOutcome::Dropped);
    assert_eq!(b.accept_frame(&[0xff; 7]), FrameOutcome::Dropped);
    assert_eq!(b.accept_frame(&second), FrameOutcome::Queued);
    assert_eq!(b.try_receive().unwrap(), "first");
    assert_eq!(b.try_receive().unwrap(), "second");
}

#[test]
fn a_tampered_frame_decodes_but_does_not_decrypt() {
    let (mut a, mut b) = pair();
    a.send("first".to_string()).unwrap();
    a.send("second".to_string()).unwrap();
    let mut first = a.next_frame().unwrap();
    let last = first.len() - 1;
    first[last] ^= 0x80;
    assert_eq!(b.accept_frame(&first), FrameOutcome::Queued);
    carry(&mut a, &mut b);
    assert_eq!(b.try_receive().err(), Some(TryReceiveError::DecryptionError(DecryptionError::Auth)));
    assert_eq!(b.try_receive().unwrap(), "second");
}

#[test]
fn a_full_outbound_queue_hands_the_value_back() {
    let (mut a, _) = pair();
    for i in 0..QUEUE_CAPACITY {
        a.send(i.to_string()).unwrap();
    }
    match a.send("one too many".to_string()) {
        Err(SendError::QueueFull(back)) => assert_eq!(back, "one too many"),
        other => panic!("{other:?}"),
    }
    assert!(a.next_frame().is_some());
    a.send("fits again".to_string()).unwrap();
}

#[test]
fn a_full_inbound_queue_does_not_take_the_frame() {
    let (mut a, mut b) = pair();
    a.send("x".to_string()).unwrap();
    let frame = a.next_frame().unwrap();
    for _ in 0..QUEUE_CAPACITY {
        assert_eq!(b.accept_frame(&frame), FrameOutcome::Queued);
    }
    assert_eq!(b.accept_frame(&frame), FrameOutcome::Full);
    assert_eq!(b.try_receive().unwrap(), "x");
    assert_eq!(b.accept_frame(&frame), FrameOutcome::Queued);
}

#[test]
fn a_closed_channel_refuses_to_send_and_drains_what_is_queued() {
    let (mut a, mut b) = pair();
    a.send("last words".to_string()).unwrap();
    carry(&mut a, &mut b);
    b.close();
    assert!(b.is_closed());
    match b.send("too late".to_string()) {
        Err(SendError::ChannelError(back)) => assert_eq!(back, "too late"),
        other => panic!("{other:?}"),
    }
    assert_eq!(b.accept_frame(&[1, 2, 3]), FrameOutcome::Closed);
    assert_eq!(b.try_receive().unwrap(), "last words");
    assert_eq!(b.try_receive().err(), Some(TryReceiveError::Emp(TryRecvError::Disconnected)));
    assert!(matches!(b.receive(), Polled::Ready(None)));
}

#[test]
fn receive_reports_pending_then_the_message() {
    let (mut a, mut b) = pair();
    assert!(matches!(b.receive(), Polled::Pending));
    a.send("hi".to_string()).unwrap();
    carry(&mut a, &mut b);
    match b.receive() {
        Polled::Ready(Some(Ok(text))) => assert_eq!(text, "hi"),
        other => panic!("{other:?}"),
    }
}

#[test]
fn a_different_key_on_the_other_side_fails_authentication() {
    let mut a: AtrisChannel<String> = AtrisChannel::new(AtrisChannelParts::new(), CipherKey::from_bytes([1; 32]).as_cipher());
    let mut b: AtrisChannel<String> = AtrisChannel::new(AtrisChannelParts::new(), CipherKey::from_bytes([2; 32]).as_cipher());
    a.send("hello".to_string()).unwrap();
    carry(&mut a, &mut b);
    match b.receive() {
        Polled::Ready(Some(Err(DecryptionError::Auth))) => {}
        other => panic!("{other:?}"),
    }
}

#[test]
fn a_frame_is_nonce_then_ciphertext() {
    let k = CipherKey::from_bytes([3; 32]);
    let mut a: AtrisChannel<String> = AtrisChannel::new(AtrisChannelParts::new(), k.as_cipher());
    a.send_with_nonce("hello".to_string(), [5u8; 12]).unwrap();
    let frame = a.next_frame().unwrap();
    let expected = Encrypted::<String>::encrypt_with_nonce(&"hello".to_string(), &k.as_cipher(), [5u8; 12]).unwrap();
    let mut bytes = vec![12, 0, 0, 0, 0, 0, 0, 0];
    bytes.extend_from_slice(&[5u8; 12]);
    bytes.extend_from_slice(&(expected.cipher_bytes().len() as u64).to_le_bytes());
    bytes.extend_from_slice(expected.cipher_bytes());
    assert_eq!(frame, bytes);
    assert_eq!(frame, expected.encode());
    assert_eq!(frame, bincode::serialize(&(serde_bytes::Bytes::new(&[5u8; 12]), serde_bytes::Bytes::new(expected.cipher_bytes()))).unwrap());
}

#[test]
fn encryption_error_variants_are_distinct() {
    assert_ne!(EncryptionError::Serialization, EncryptionError::Aead);
}
