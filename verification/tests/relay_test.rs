use clamav_stream::relay::{Action, Event, ScannedStream};
use clamav_stream::verdict::classify_response;
use clamav_stream::Error;

const PREAMBLE: &[u8] = b"zINSTREAM\0";
const TERMINATOR: &[u8] = &[0, 0, 0, 0];

/// Drives a relay the way a consumer would: feeds each chunk, then
/// exhaustion, performing the "I/O" of each action against in-memory
/// buffers.  Returns the yielded chunks, everything written to the
/// connection, and the terminal error, if any.
fn drive(chunks: &[&[u8]], response: &[u8]) -> (Vec<Vec<u8>>, Vec<u8>, Option<Error>) {
    let mut relay = ScannedStream::new();
    let mut yielded: Vec<Vec<u8>> = Vec::new();
    let mut written: Vec<u8> = Vec::new();
    for c in chunks {
        match relay.step(Event::Chunk(c.to_vec())) {
            Action::Forward { wire, chunk } => {
                written.extend_from_slice(&wire);
                yielded.push(chunk);
            }
            _ => panic!("a chunk event must ask for a forward"),
        }
    }
    match relay.step(Event::Exhausted) {
        Action::Finish { wire } => {
            written.extend_from_slice(&wire);
            let verdict = classify_response(&response.to_vec()).err();
            (yielded, written, verdict)
        }
        _ => panic!("the first exhaustion must ask for the dialogue"),
    }
}

#[test]
fn it_returns_original_inputs_when_success() {
    let (yielded, written, verdict) = drive(&[b"Hello World"], b"OK");
    assert!(verdict.is_none());
    assert_eq!(yielded, vec![b"Hello World".to_vec()]);

    let mut expected: Vec<u8> = Vec::new();
    expected.extend_from_slice(PREAMBLE);
    expected.extend_from_slice(&(b"Hello World".len() as u32).to_be_bytes());
    expected.extend_from_slice(b"Hello World");
    expected.extend_from_slice(TERMINATOR);
    assert_eq!(written, expected);
}

#[test]
fn it_returns_an_error_when_found_any_virus() {
    let (yielded, _written, verdict) = drive(&[b"Hello World"], b"FOUND test virus");
    assert_eq!(yielded, vec![b"Hello World".to_vec()]);
    let err = verdict.expect("an infected response must surface an error");
    assert_eq!(err.message(), "FOUND test virus");
}

#[test]
fn clean_scenario_two_chunks() {
    let (yielded, written, verdict) = drive(&[b"Hello ", b"World"], b"stream: OK\0");
    assert!(verdict.is_none());
    assert_eq!(yielded, vec![b"Hello ".to_vec(), b"World".to_vec()]);

    let mut expected: Vec<u8> = Vec::new();
    expected.extend_from_slice(PREAMBLE);
    expected.extend_from_slice(&6u32.to_be_bytes());
    expected.extend_from_slice(b"Hello ");
    expected.extend_from_slice(&5u32.to_be_bytes());
    expected.extend_from_slice(b"World");
    expected.extend_from_slice(TERMINATOR);
    assert_eq!(written, expected);
}

#[test]
fn infected_scenario_two_chunks() {
    let response = b"stream: Eicar-Signature FOUND\0";
    let (yielded, _written, verdict) = drive(&[b"Hello ", b"World"], response);
    assert_eq!(yielded, vec![b"Hello ".to_vec(), b"World".to_vec()]);
    let err = verdict.expect("a FOUND response must surface an error");
    assert_eq!(err, Error::Scan(String::from_utf8(response.to_vec()).unwrap()));
    assert_eq!(err.message().as_bytes(), response);
}

#[test]
fn large_chunk_is_split_on_the_wire() {
    let data: Vec<u8> = (0..5000u32).map(|i| (i % 251) as u8).collect();
    let (yielded, written, verdict) = drive(&[&data], b"OK");
    assert!(verdict.is_none());
    assert_eq!(yielded, vec![data.clone()]);

    let mut expected: Vec<u8> = Vec::new();
    expected.extend_from_slice(PREAMBLE);
    expected.extend_from_slice(&4096u32.to_be_bytes());
    expected.extend_from_slice(&data[..4096]);
    expected.extend_from_slice(&904u32.to_be_bytes());
    expected.extend_from_slice(&data[4096..]);
    expected.extend_from_slice(TERMINATOR);
    assert_eq!(written, expected);
}

#[test]
fn preamble_is_written_only_before_the_first_chunk() {
    let mut relay = ScannedStream::new();
    let first = match relay.step(Event::Chunk(b"one".to_vec())) {
        Action::Forward { wire, .. } => wire,
        _ => panic!("a chunk event must ask for a forward"),
    };
    let second = match relay.step(Event::Chunk(b"two".to_vec())) {
        Action::Forward { wire, .. } => wire,
        _ => panic!("a chunk event must ask for a forward"),
    };
    assert!(first.starts_with(PREAMBLE));
    let mut expected_second: Vec<u8> = Vec::new();
    expected_second.extend_from_slice(&3u32.to_be_bytes());
    expected_second.extend_from_slice(b"two");
    assert_eq!(second, expected_second);
}

#[test]
fn repeated_exhaustion_finishes_only_once() {
    let mut relay = ScannedStream::new();
    match relay.step(Event::Chunk(b"data".to_vec())) {
        Action::Forward { .. } => {}
        _ => panic!("a chunk event must ask for a forward"),
    }
    match relay.step(Event::Exhausted) {
        Action::Finish { wire } => assert_eq!(wire, TERMINATOR),
        _ => panic!("the first exhaustion must ask for the dialogue"),
    }
    for _ in 0..3 {
        match relay.step(Event::Exhausted) {
            Action::Done => {}
            _ => panic!("a later exhaustion must not repeat the dialogue"),
        }
    }
}

#[test]
fn upstream_error_short_circuits_without_terminator() {
    let mut relay = ScannedStream::new();
    let mut written: Vec<u8> = Vec::new();
    match relay.step(Event::Chunk(b"partial".to_vec())) {
        Action::Forward { wire, .. } => written.extend_from_slice(&wire),
        _ => panic!("a chunk event must ask for a forward"),
    }
    match relay.step(Event::Failed("boom".to_string())) {
        Action::Fail(err) => {
            assert_eq!(err, Error::Stream("boom".to_string()));
            assert_eq!(err.message(), "stream error: boom");
        }
        _ => panic!("an upstream error must surface as a failure"),
    }
    // No terminator was asked for: the written bytes are preamble and frame only.
    let mut expected: Vec<u8> = Vec::new();
    expected.extend_from_slice(PREAMBLE);
    expected.extend_from_slice(&7u32.to_be_bytes());
    expected.extend_from_slice(b"partial");
    assert_eq!(written, expected);
}

#[test]
fn empty_upstream_writes_only_the_terminator() {
    let mut relay = ScannedStream::new();
    match relay.step(Event::Exhausted) {
        Action::Finish { wire } => assert_eq!(wire, TERMINATOR),
        _ => panic!("the first exhaustion must ask for the dialogue"),
    }
}

#[test]
fn empty_chunk_is_yielded_but_not_framed() {
    let mut relay = ScannedStream::new();
    match relay.step(Event::Chunk(Vec::new())) {
        Action::Forward { wire, chunk } => {
            assert_eq!(chunk, Vec::<u8>::new());
            assert_eq!(wire, PREAMBLE);
        }
        _ => panic!("a chunk event must ask for a forward"),
    }
}
