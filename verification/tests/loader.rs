use encoding_rs::{Encoding, SHIFT_JIS, UTF_16LE, UTF_8, WINDOWS_1252};
use lark::editor::loader::{Loader, BUF_SIZE};
use ropey::Rope;

/// Runs a loader over `bytes`, reading at most `chunk` bytes at a time into
/// a buffer of `BUF_SIZE` bytes, as a reader would.
fn load(bytes: &[u8], chunk: usize, encoding: Option<&'static Encoding>) -> (Rope, &'static Encoding) {
    let mut buf = [0u8; BUF_SIZE];
    let mut pos = 0;
    let mut fill = |buf: &mut [u8; BUF_SIZE]| {
        let n = chunk.min(BUF_SIZE).min(bytes.len() - pos);
        buf[..n].copy_from_slice(&bytes[pos..pos + n]);
        pos += n;
        n
    };
    let read = fill(&mut buf);
    let mut loader = Loader::start(&buf, read, encoding);
    while !loader.is_done() {
        let read = fill(&mut buf);
        loader.feed(&buf[..read]);
    }
    loader.finish()
}

#[test]
fn ascii_in_one_read() {
    let (rope, enc) = load(b"hello world", BUF_SIZE, Some(UTF_8));
    assert_eq!(rope.to_string(), "hello world");
    assert_eq!(enc, UTF_8);
}

#[test]
fn empty_stream_gives_empty_rope() {
    let (rope, _) = load(b"", BUF_SIZE, Some(UTF_8));
    assert_eq!(rope.len_chars(), 0);
}

#[test]
fn empty_stream_guesses_from_the_zeroed_buffer() {
    let (rope, enc) = load(b"", BUF_SIZE, None);
    assert_eq!(rope.len_chars(), 0);
    let mut detector = chardetng::EncodingDetector::new();
    detector.feed(&[0u8; BUF_SIZE], true);
    assert_eq!(enc, detector.guess(None, true));
}

#[test]
fn utf8_split_across_reads() {
    let text = "héllo wörld, ünïcödé ✓ 𝄞";
    for chunk in 1..8 {
        let (rope, _) = load(text.as_bytes(), chunk, Some(UTF_8));
        assert_eq!(rope.to_string(), text);
    }
}

#[test]
fn decoded_text_larger_than_the_buffer() {
    // Each 0xE9 byte becomes 'é', two bytes of UTF-8, so the output buffer
    // fills up and is flushed in the middle of the stream.
    let bytes = vec![0xE9u8; 3 * BUF_SIZE + 17];
    let (rope, enc) = load(&bytes, BUF_SIZE, Some(WINDOWS_1252));
    assert_eq!(enc, WINDOWS_1252);
    assert_eq!(rope.len_chars(), bytes.len());
    assert!(rope.chars().all(|c| c == 'é'));
}

#[test]
fn many_reads_of_ascii() {
    let bytes: Vec<u8> = (0..20_000u32).map(|i| b'a' + (i % 26) as u8).collect();
    let (rope, _) = load(&bytes, 1000, Some(UTF_8));
    assert_eq!(rope.to_string().as_bytes(), &bytes[..]);
}

#[test]
fn byte_order_mark_switches_to_utf16() {
    let (rope, enc) = load(b"\xFF\xFEh\x00i\x00", BUF_SIZE, Some(UTF_8));
    assert_eq!(rope.to_string(), "hi");
    assert_eq!(enc, UTF_8);
    let (rope, _) = load(b"\xFF\xFEh\x00i\x00", 1, Some(UTF_16LE));
    assert_eq!(rope.to_string(), "hi");
}

#[test]
fn shift_jis_is_detected() {
    let (bytes, _, _) = SHIFT_JIS.encode("日本語のテキストです。これは文字コードの判定のための文章です。");
    let (rope, enc) = load(&bytes, BUF_SIZE, None);
    assert_eq!(enc, SHIFT_JIS);
    assert_eq!(rope.to_string(), "日本語のテキストです。これは文字コードの判定のための文章です。");
}

#[test]
fn given_encoding_is_used_over_detection() {
    let (rope, enc) = load(b"caf\xE9", BUF_SIZE, Some(WINDOWS_1252));
    assert_eq!(enc, WINDOWS_1252);
    assert_eq!(rope.to_string(), "café");
}

#[test]
fn malformed_input_becomes_replacement_characters() {
    let (rope, _) = load(b"a\xFFb", BUF_SIZE, Some(UTF_8));
    assert_eq!(rope.to_string(), "a\u{FFFD}b");
}

#[test]
fn truncated_sequence_at_end_of_stream() {
    let (rope, _) = load(b"ab\xE2\x9C", 2, Some(UTF_8));
    assert_eq!(rope.to_string(), "ab\u{FFFD}");
}

#[test]
fn loader_reports_its_encoding_and_progress() {
    let buf = [b'x'; BUF_SIZE];
    let mut loader = Loader::start(&buf, 3, Some(UTF_8));
    assert_eq!(loader.encoding(), UTF_8);
    assert!(!loader.is_done());
    loader.feed(b"yz");
    assert!(!loader.is_done());
    loader.feed(b"");
    assert!(loader.is_done());
    let (rope, _) = loader.finish();
    assert_eq!(rope.to_string(), "xxxyz");
}

#[test]
fn character_split_at_the_read_buffer_end() {
    let mut bytes = vec![b'a'; BUF_SIZE - 1];
    bytes.extend_from_slice("é".as_bytes());
    let (rope, enc) = load(&bytes, BUF_SIZE, Some(UTF_8));
    assert_eq!(enc, UTF_8);
    assert_eq!(rope.len_chars(), BUF_SIZE);
    assert_eq!(rope.to_string(), "a".repeat(BUF_SIZE - 1) + "é");
}

#[test]
fn whole_stream_decoding_does_not_depend_on_reads() {
    let mut bytes = Vec::new();
    for i in 0..5000u32 {
        bytes.push(0x80 + (i % 100) as u8);
        bytes.push(b'x');
    }
    let whole = WINDOWS_1252.decode(&bytes).0.into_owned();
    for chunk in [1, 7, 100, 4096, BUF_SIZE] {
        let (rope, _) = load(&bytes, chunk, Some(WINDOWS_1252));
        assert_eq!(rope.to_string(), whole);
    }
}

#[test]
fn incomplete_sequence_at_end_of_stream() {
    let (rope, _) = load(b"a\xC3", BUF_SIZE, Some(UTF_8));
    assert_eq!(rope.to_string(), "a\u{FFFD}");
}
