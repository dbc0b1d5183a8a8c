use managed_command::{
    error_channel, input_channel, output_channel, InputEnd, OutputEnd, READ_CHUNK,
};

#[test]
fn input_chunks_are_written_in_send_order() {
    let (stdin, mut relay) = input_channel();
    stdin.send("second input\n".to_owned()).unwrap();
    stdin.send("first input\n".to_owned()).unwrap();
    let mut written: Vec<u8> = Vec::new();
    let first = relay.next_write().unwrap();
    assert_eq!(first, b"second input\n".to_vec());
    written.extend_from_slice(&first);
    assert!(relay.on_write(true));
    let second = relay.next_write().unwrap();
    assert_eq!(second, b"first input\n".to_vec());
    written.extend_from_slice(&second);
    assert!(relay.on_write(true));
    assert_eq!(written, b"second input\nfirst input\n".to_vec());
    assert_eq!(relay.end(), None);
}

#[test]
fn input_text_is_written_as_utf8() {
    let (stdin, mut relay) = input_channel();
    stdin.send("é€\n".to_owned()).unwrap();
    assert_eq!(relay.next_write().unwrap(), vec![0xC3, 0xA9, 0xE2, 0x82, 0xAC, b'\n']);
}

#[test]
fn input_relay_stops_when_sender_dropped() {
    let (stdin, mut relay) = input_channel();
    stdin.send("last\n".to_owned()).unwrap();
    drop(stdin);
    assert_eq!(relay.next_write().unwrap(), b"last\n".to_vec());
    assert!(relay.on_write(true));
    assert_eq!(relay.next_write(), None);
    assert_eq!(relay.end(), Some(InputEnd::InputClosed));
}

#[test]
fn input_relay_stops_when_write_fails() {
    let (stdin, mut relay) = input_channel();
    stdin.send("lost\n".to_owned()).unwrap();
    assert!(relay.next_write().is_some());
    assert!(!relay.on_write(false));
    assert_eq!(relay.end(), Some(InputEnd::WriteFailed));
}

#[test]
fn send_after_relay_stopped_hands_chunk_back() {
    let (stdin, relay) = input_channel();
    drop(relay);
    let err = stdin.send("too late\n".to_owned()).unwrap_err();
    assert_eq!(err.0, "too late\n");
}

#[test]
fn output_chunks_arrive_in_read_order() {
    let (mut relay, stdout) = output_channel();
    assert!(relay.on_read(Some(b"hello ")));
    assert!(relay.on_read(Some(b"world\n")));
    assert!(!relay.on_read(Some(&[])));
    assert_eq!(relay.end(), Some(OutputEnd::EndOfStream));
    drop(relay);
    assert_eq!(stdout.recv().unwrap(), "hello ");
    assert_eq!(stdout.recv().unwrap(), "world\n");
    assert!(stdout.recv().is_err());
}

#[test]
fn output_invalid_bytes_become_replacement_characters() {
    let (mut relay, stdout) = output_channel();
    assert!(relay.on_read(Some(&[b'a', 0xFF, b'b'])));
    assert_eq!(stdout.recv().unwrap(), "a\u{FFFD}b");
}

#[test]
fn output_character_split_across_reads_is_not_reassembled() {
    let (mut relay, stdout) = output_channel();
    assert!(relay.on_read(Some(&[0xC3])));
    assert!(relay.on_read(Some(&[0xA9])));
    assert_eq!(stdout.recv().unwrap(), "\u{FFFD}");
    assert_eq!(stdout.recv().unwrap(), "\u{FFFD}");
}

#[test]
fn output_whole_characters_decode_exactly() {
    let (mut relay, stdout) = output_channel();
    assert!(relay.on_read(Some("é".as_bytes())));
    assert!(relay.on_read(Some("€!".as_bytes())));
    let mut joined = String::new();
    joined.push_str(&stdout.recv().unwrap());
    joined.push_str(&stdout.recv().unwrap());
    assert_eq!(joined, "é€!");
}

#[test]
fn output_relay_stops_when_receiver_dropped() {
    let (mut relay, stdout) = output_channel();
    drop(stdout);
    assert!(!relay.on_read(Some(b"nobody listens\n")));
    assert_eq!(relay.end(), Some(OutputEnd::ReceiverDropped));
}

#[test]
fn output_relay_stops_when_read_fails() {
    let (mut relay, _stdout) = output_channel();
    assert!(!relay.on_read(None));
    assert_eq!(relay.end(), Some(OutputEnd::ReadFailed));
}

#[test]
fn error_channel_forwards_chunks() {
    let (mut relay, stderr) = error_channel();
    assert!(relay.on_read(Some(b"warning\n")));
    assert_eq!(stderr.recv().unwrap(), "warning\n");
}

#[test]
fn full_read_chunk_is_forwarded_whole() {
    let (mut relay, stdout) = output_channel();
    let buf = [b'x'; READ_CHUNK];
    assert_eq!(READ_CHUNK, 128);
    assert!(relay.on_read(Some(&buf)));
    assert_eq!(stdout.recv().unwrap(), "x".repeat(128));
}

#[test]
fn echoed_ping_reaches_stdout() {
    let (stdin, mut input) = input_channel();
    let (mut output, stdout) = output_channel();
    stdin.send("ping\n".to_owned()).unwrap();
    let bytes = input.next_write().unwrap();
    assert!(input.on_write(true));
    for piece in bytes.chunks(3) {
        assert!(output.on_read(Some(piece)));
    }
    let mut received = String::new();
    while received.len() < 5 {
        received.push_str(&stdout.recv().unwrap());
    }
    assert_eq!(received, "ping\n");
}

#[test]
fn received_text_is_never_longer_than_its_bytes() {
    let (mut relay, stdout) = output_channel();
    assert!(relay.on_read(Some(&[0xFF, 0xFE, 0xFD])));
    assert!(relay.on_read(Some("é€".as_bytes())));
    let bad = stdout.recv().unwrap();
    assert_eq!(bad, "\u{FFFD}\u{FFFD}\u{FFFD}");
    assert_eq!(bad.chars().count(), 3);
    let good = stdout.recv().unwrap();
    assert_eq!(good.chars().count(), 2);
    assert!(good.chars().count() <= "é€".len());
}
