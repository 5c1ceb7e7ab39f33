use proxy_server::stream_io::{drain_step, decoded_text, DrainStep, ReadOutcome};

#[test]
fn bytes_are_appended_and_the_drain_goes_on() {
    let mut buffer = b"GET ".to_vec();

    let step = drain_step(&mut buffer, &ReadOutcome::Read(b"http://a.b:80 HTTP/1.0".to_vec()));

    assert_eq!(step, DrainStep::More);
    assert_eq!(buffer, b"GET http://a.b:80 HTTP/1.0".to_vec());
}

#[test]
fn closed_peer_ends_the_drain() {
    let mut buffer = b"GET".to_vec();
    assert_eq!(drain_step(&mut buffer, &ReadOutcome::Read(Vec::new())), DrainStep::Done);
    assert_eq!(buffer, b"GET".to_vec());
}

#[test]
fn would_block_ends_the_drain() {
    let mut buffer = b"GET".to_vec();
    assert_eq!(drain_step(&mut buffer, &ReadOutcome::WouldBlock), DrainStep::Done);
    assert_eq!(buffer, b"GET".to_vec());
}

#[test]
fn failed_read_fails_the_drain() {
    let mut buffer = b"GET".to_vec();
    assert_eq!(drain_step(&mut buffer, &ReadOutcome::Failed), DrainStep::Failed);
    assert_eq!(buffer, b"GET".to_vec());
}

#[test]
fn drained_bytes_are_decoded() {
    assert_eq!(decoded_text(&b"GET / HTTP/1.0\r\n".to_vec()), Some("GET / HTTP/1.0\r\n".to_string()));
    assert_eq!(decoded_text(&vec![0x68, 0xC3, 0xA9]), Some("h\u{e9}".to_string()));
    assert_eq!(decoded_text(&Vec::new()), Some(String::new()));
}

#[test]
fn bytes_that_are_no_text_are_not_decoded() {
    assert_eq!(decoded_text(&vec![0x47, 0xFF, 0x20]), None);
    assert_eq!(decoded_text(&vec![0xC3]), None);
    assert_eq!(decoded_text(&vec![0xED, 0xA0, 0x80]), None);
}

#[test]
fn reads_ask_for_a_fixed_chunk() {
    assert_eq!(proxy_server::stream_io::READ_CHUNK_SIZE, 4096);
}
