use llm_engine::decoder::StreamDecoder;

fn push(decoder: &mut StreamDecoder, bytes: &[u8]) -> String {
    let mut out = String::new();
    decoder.push_bytes(&bytes.to_vec(), &mut out);
    out
}

#[test]
fn test_two_byte_character_split_across_pushes() {
    let mut decoder = StreamDecoder::new();
    let first = push(&mut decoder, &[0xC3]);
    assert_eq!(first, "", "no premature emission for an incomplete sequence");
    let second = push(&mut decoder, &[0xA9]);
    assert_eq!(second, "\u{e9}");
}

#[test]
fn test_three_byte_character_split_byte_by_byte() {
    let mut decoder = StreamDecoder::new();
    assert_eq!(push(&mut decoder, &[0xE2]), "");
    assert_eq!(push(&mut decoder, &[0x82]), "");
    assert_eq!(push(&mut decoder, &[0xAC]), "\u{20ac}");
}

#[test]
fn test_four_byte_character_split_across_pushes() {
    let mut decoder = StreamDecoder::new();
    assert_eq!(push(&mut decoder, &[0xF0, 0x9F]), "");
    assert_eq!(push(&mut decoder, &[0x98, 0x80]), "\u{1f600}");
}

#[test]
fn test_ascii_passes_straight_through() {
    let mut decoder = StreamDecoder::new();
    assert_eq!(push(&mut decoder, b"hello"), "hello");
}

#[test]
fn test_invalid_bytes_become_replacement_characters() {
    let mut decoder = StreamDecoder::new();
    assert_eq!(push(&mut decoder, &[0xFF]), "\u{fffd}");
    assert_eq!(push(&mut decoder, &[0x80]), "\u{fffd}");
    assert_eq!(push(&mut decoder, &[0xC0, 0xAF]), "\u{fffd}\u{fffd}");
}

#[test]
fn test_truncated_sequence_replaced_once_when_broken() {
    let mut decoder = StreamDecoder::new();
    // E2 82 starts a three-byte sequence; 'A' breaks it: one replacement
    // for the maximal subpart, then the letter.
    assert_eq!(push(&mut decoder, &[0xE2, 0x82, 0x41]), "\u{fffd}A");
}

#[test]
fn test_mixed_text_with_chunk_boundaries_inside_characters() {
    let mut decoder = StreamDecoder::new();
    let mut out = String::new();
    out.push_str(&push(&mut decoder, b"a\xC3"));
    out.push_str(&push(&mut decoder, b"\xA9b\xE2\x82"));
    out.push_str(&push(&mut decoder, b"\xACc"));
    assert_eq!(out, "a\u{e9}b\u{20ac}c");
}

#[test]
fn test_decoder_matches_reference_utf8_decoder() {
    let data: Vec<u8> = vec![
        0x48, 0x69, 0xC3, 0xA9, 0xE2, 0x82, 0xAC, 0xF0, 0x9F, 0x98, 0x80, 0xFF, 0x41, 0xE2, 0x82,
        0x41, 0xED, 0x9F, 0xBF, 0xC2, 0x80, 0xF4, 0x8F, 0xBF, 0xBF, 0x7F,
    ];
    for chunk_size in 1..=5usize {
        let mut ours = String::new();
        let mut decoder = StreamDecoder::new();
        let mut reference = String::new();
        let mut ref_decoder = encoding_rs::UTF_8.new_decoder();
        for chunk in data.chunks(chunk_size) {
            ours.push_str(&push(&mut decoder, chunk));
            let mut piece = String::with_capacity(
                ref_decoder.max_utf8_buffer_length(chunk.len()).unwrap(),
            );
            let _ = ref_decoder.decode_to_string(chunk, &mut piece, false);
            reference.push_str(&piece);
        }
        assert_eq!(ours, reference, "chunk size {}", chunk_size);
    }
}
