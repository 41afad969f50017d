use irontray::http::assembler::{
    AssemblerError, AssemblerStatus, HeaderAssembler, ReadOutcome, CHUNK_SIZE,
};

const STREAM: &[u8] = b"GET / HTTP/1.1\r\nHost: a\r\n\r\n";

/// Feeds the chunks through a buffer of `CHUNK_SIZE` bytes, as a stream
/// would deliver them.
fn feed_all(assembler: &mut HeaderAssembler, chunks: &[&[u8]]) -> AssemblerStatus {
    let mut status = assembler.status();
    for chunk in chunks {
        let mut buf = [0xaau8; CHUNK_SIZE];
        buf[..chunk.len()].copy_from_slice(chunk);
        status = assembler.feed(&buf, ReadOutcome::Read(chunk.len()));
    }
    status
}

#[test]
fn chunk_size_is_512() {
    assert_eq!(CHUNK_SIZE, 512);
}

#[test]
fn a_new_assembler_is_reading() {
    let assembler = HeaderAssembler::new();
    assert_eq!(assembler.status(), AssemblerStatus::Reading);
    assert_eq!(assembler.header(), None);
}

#[test]
fn one_chunk_with_the_whole_block_completes() {
    let mut assembler = HeaderAssembler::new();
    assert_eq!(feed_all(&mut assembler, &[STREAM]), AssemblerStatus::Complete);
    assert_eq!(assembler.header().as_deref(), Some(STREAM));
}

#[test]
fn split_point_makes_no_difference() {
    for split in 1..STREAM.len() {
        let mut assembler = HeaderAssembler::new();
        let status = feed_all(&mut assembler, &[&STREAM[..split], &STREAM[split..]]);
        assert_eq!(status, AssemblerStatus::Complete, "split at {}", split);
        assert_eq!(assembler.header().as_deref(), Some(STREAM), "split at {}", split);
    }
}

#[test]
fn split_at_byte_5_and_at_byte_20_give_the_same_text() {
    let mut first = HeaderAssembler::new();
    feed_all(&mut first, &[&STREAM[..5], &STREAM[5..]]);
    let mut second = HeaderAssembler::new();
    feed_all(&mut second, &[&STREAM[..20], &STREAM[20..]]);
    assert_eq!(first.header(), second.header());
    assert_eq!(
        String::from_utf8(first.header().unwrap()).unwrap(),
        "GET / HTTP/1.1\r\nHost: a\r\n\r\n"
    );
}

#[test]
fn terminator_may_lie_across_chunks() {
    let mut assembler = HeaderAssembler::new();
    assert_eq!(feed_all(&mut assembler, &[b"GET / HTTP/1.1\r\n\r"]), AssemblerStatus::Reading);
    assert_eq!(assembler.header(), None);
    assert_eq!(feed_all(&mut assembler, &[b"\n"]), AssemblerStatus::Complete);
    assert_eq!(assembler.header().as_deref(), Some(&b"GET / HTTP/1.1\r\n\r\n"[..]));
}

#[test]
fn byte_by_byte_delivery_completes_at_the_last_byte() {
    let mut assembler = HeaderAssembler::new();
    for (i, byte) in STREAM.iter().enumerate() {
        let status = assembler.feed(&[*byte], ReadOutcome::Read(1));
        if i + 1 < STREAM.len() {
            assert_eq!(status, AssemblerStatus::Reading);
        } else {
            assert_eq!(status, AssemblerStatus::Complete);
        }
    }
    assert_eq!(assembler.header().as_deref(), Some(STREAM));
}

#[test]
fn a_short_read_appends_only_what_was_read() {
    let mut assembler = HeaderAssembler::new();
    let mut buf = [b'\n'; CHUNK_SIZE];
    buf[0] = b'\r';
    buf[2] = b'\r';
    assert_eq!(assembler.feed(&buf, ReadOutcome::Read(3)), AssemblerStatus::Reading);
    assert_eq!(assembler.feed(&buf, ReadOutcome::Read(1)), AssemblerStatus::Reading);
    assert_eq!(assembler.header(), None);
    let mut buf = [0u8; CHUNK_SIZE];
    buf[0] = b'\n';
    buf[1] = b'\r';
    buf[2] = b'\n';
    assert_eq!(assembler.feed(&buf, ReadOutcome::Read(3)), AssemblerStatus::Complete);
    assert_eq!(assembler.header().as_deref(), Some(&b"\r\n\r\r\n\r\n"[..]));
}

#[test]
fn what_follows_the_terminator_is_left_out() {
    let mut assembler = HeaderAssembler::new();
    let status = feed_all(&mut assembler, &[b"GET / HTTP/1.1\r\n\r\nbody\r\n\r\nmore"]);
    assert_eq!(status, AssemblerStatus::Complete);
    assert_eq!(assembler.header().as_deref(), Some(&b"GET / HTTP/1.1\r\n\r\n"[..]));
}

#[test]
fn zero_length_read_is_connection_closed() {
    let mut assembler = HeaderAssembler::new();
    let status = assembler.feed(&[0u8; CHUNK_SIZE], ReadOutcome::Read(0));
    assert_eq!(status, AssemblerStatus::Failed(AssemblerError::ConnectionClosed));
    assert_eq!(assembler.header(), None);

    let mut assembler = HeaderAssembler::new();
    feed_all(&mut assembler, &[b"GET / HTTP/1.1\r\n"]);
    let status = assembler.feed(&[0u8; CHUNK_SIZE], ReadOutcome::Read(0));
    assert_eq!(status, AssemblerStatus::Failed(AssemblerError::ConnectionClosed));
    assert_eq!(assembler.status(), AssemblerStatus::Failed(AssemblerError::ConnectionClosed));
    assert_eq!(assembler.header(), None);
}

#[test]
fn failed_read_is_read_error() {
    let mut assembler = HeaderAssembler::new();
    let status = assembler.feed(STREAM, ReadOutcome::Failed);
    assert_eq!(status, AssemblerStatus::Failed(AssemblerError::ReadError));
    assert_eq!(assembler.header(), None);
}

#[test]
fn a_read_of_more_than_the_buffer_is_read_error() {
    let mut assembler = HeaderAssembler::new();
    let status = assembler.feed(STREAM, ReadOutcome::Read(STREAM.len() + 1));
    assert_eq!(status, AssemblerStatus::Failed(AssemblerError::ReadError));
}

#[test]
fn nothing_is_taken_in_after_the_end() {
    let mut assembler = HeaderAssembler::new();
    feed_all(&mut assembler, &[STREAM]);
    assert_eq!(feed_all(&mut assembler, &[b"more\r\n\r\n"]), AssemblerStatus::Complete);
    assert_eq!(assembler.feed(&[], ReadOutcome::Read(0)), AssemblerStatus::Complete);
    assert_eq!(assembler.feed(&[], ReadOutcome::Failed), AssemblerStatus::Complete);
    assert_eq!(assembler.header().as_deref(), Some(STREAM));

    let mut assembler = HeaderAssembler::new();
    assembler.feed(&[], ReadOutcome::Failed);
    let status = feed_all(&mut assembler, &[STREAM]);
    assert_eq!(status, AssemblerStatus::Failed(AssemblerError::ReadError));
}

#[test]
fn a_block_longer_than_one_chunk_is_assembled() {
    let mut stream = b"GET / HTTP/1.1\r\nUser-Agent: ".to_vec();
    stream.extend(std::iter::repeat(b'a').take(3 * CHUNK_SIZE));
    stream.extend_from_slice(b"\r\n\r\n");
    let mut assembler = HeaderAssembler::new();
    let chunks: Vec<&[u8]> = stream.chunks(CHUNK_SIZE).collect();
    assert_eq!(feed_all(&mut assembler, &chunks), AssemblerStatus::Complete);
    assert_eq!(assembler.header(), Some(stream));
}
