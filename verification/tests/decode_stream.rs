use shellm::decode::{decode_tokens, StreamDecoder};
use shellm::threads::{get_sys_threads, worker_threads};

#[test]
fn decode_concatenates_token_pieces() {
    let chunks: Vec<Vec<u8>> = vec![b"He".to_vec(), b"llo".to_vec(), b", world".to_vec()];
    let (full, pieces) = decode_tokens(&chunks);
    assert_eq!(full, "Hello, world");
    assert_eq!(pieces.len(), 3);
    let joined: String = pieces.concat();
    assert_eq!(joined, full);
}

#[test]
fn multibyte_character_split_across_tokens() {
    // one three-byte character arriving one byte at a time
    let chunks: Vec<Vec<u8>> = vec![vec![0xE2], vec![0x9C], vec![0xA8]];
    let (full, pieces) = decode_tokens(&chunks);
    assert_eq!(full, "\u{2728}");
    assert_eq!(pieces[0], "");
    assert_eq!(pieces[1], "");
    assert_eq!(pieces[2], "\u{2728}");
}

#[test]
fn stream_decoder_buffers_incomplete_sequences() {
    let mut sd = StreamDecoder::new();
    let first = sd.push_token_bytes(&vec![0xC3]);
    assert_eq!(first, "");
    let second = sd.push_token_bytes(&vec![0xA9, b'!']);
    assert_eq!(second, "\u{e9}!");
    assert_eq!(sd.finish(), "\u{e9}!");
}

#[test]
fn empty_token_bytes_emit_nothing() {
    let mut sd = StreamDecoder::new();
    let piece = sd.push_token_bytes(&Vec::new());
    assert_eq!(piece, "");
    assert_eq!(sd.finish(), "");
}

#[test]
fn malformed_bytes_become_replacement_characters() {
    let chunks: Vec<Vec<u8>> = vec![vec![0xFF, b'a']];
    let (full, _pieces) = decode_tokens(&chunks);
    assert_eq!(full, "\u{FFFD}a");
}

#[test]
fn decoding_is_repeatable() {
    let chunks: Vec<Vec<u8>> = vec![vec![0xE2], vec![0x9C, 0xA8, b'!'], b"done".to_vec()];
    let first = decode_tokens(&chunks);
    let second = decode_tokens(&chunks);
    assert_eq!(first.0, second.0);
    assert_eq!(first.1, second.1);
}

#[test]
fn leading_byte_order_mark_is_sniffed_away() {
    // the decoder sniffs a byte-order mark at the start of the stream
    let chunks: Vec<Vec<u8>> = vec![vec![0xEF, 0xBB, 0xBF, b'a']];
    let (full, _pieces) = decode_tokens(&chunks);
    assert_eq!(full, "a");
}

#[test]
fn decode_of_nothing_is_empty() {
    let chunks: Vec<Vec<u8>> = Vec::new();
    let (full, pieces) = decode_tokens(&chunks);
    assert_eq!(full, "");
    assert!(pieces.is_empty());
}

#[test]
fn machine_reports_at_least_one_thread() {
    assert!(get_sys_threads() >= 1);
}

#[test]
fn worker_threads_take_seven_eighths() {
    assert_eq!(worker_threads(8), 7);
    assert_eq!(worker_threads(16), 14);
    assert_eq!(worker_threads(9), 7);
    assert_eq!(worker_threads(1), 0);
    assert_eq!(worker_threads(12), 10);
}
