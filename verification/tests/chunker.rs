use ai_toolbox::doc::chunker::{
    chunk_decoded, chunk_line_source, chunk_lines, chunk_text, chunk_text_source, EncodingError,
    SourceEncoding,
};

fn texts(items: &[&str]) -> Vec<String> {
    items.iter().map(|s| s.to_string()).collect()
}

#[test]
fn empty_text_has_no_chunks() {
    assert_eq!(chunk_text("", 100), Vec::<String>::new());
    assert_eq!(chunk_text_source(&[], 100), Ok(Vec::<String>::new()));
    assert_eq!(chunk_lines("", 10), Vec::<String>::new());
    assert_eq!(chunk_line_source(&[], 10), Ok(Vec::<String>::new()));
}

#[test]
fn lines_are_gathered_up_to_the_budget() {
    let chunks = chunk_text("ab\r\ncd\r\nefgh\r\ni", 4);
    assert_eq!(chunks, texts(&["abcd", "efgh", "i"]));
}

#[test]
fn single_unbroken_line_is_one_chunk() {
    let line = "x".repeat(250);
    let chunks = chunk_text(&line, 100);
    assert_eq!(chunks, vec![line]);
}

#[test]
fn paragraph_with_line_breaks_is_cut_at_line_boundaries() {
    let a = "a".repeat(60);
    let b = "b".repeat(60);
    let c = "c".repeat(60);
    let d = "d".repeat(70);
    let text = format!("{}\r\n{}\r\n{}\r\n{}", a, b, c, d);
    assert_eq!(text.chars().filter(|c| *c != '\r' && *c != '\n').count(), 250);
    let chunks = chunk_text(&text, 100);
    assert_eq!(chunks, vec![format!("{}{}", a, b), format!("{}{}", c, d)]);
    for chunk in &chunks {
        assert!(chunk.chars().count() >= 100);
    }
}

#[test]
fn oversized_line_stays_whole() {
    let long = "y".repeat(30);
    let text = format!("ab\r\n{}\r\ncd", long);
    let chunks = chunk_text(&text, 5);
    assert_eq!(chunks, vec![format!("ab{}", long), "cd".to_string()]);
}

#[test]
fn chunks_hold_the_content_without_separators() {
    let text = "one\r\ntwo\r\n\r\nthree\r\nfour and five\r\n";
    for budget in 0..12 {
        let chunks = chunk_text(text, budget);
        assert_eq!(chunks.concat(), text.replace("\r\n", ""));
        assert!(chunks.iter().all(|c| !c.is_empty()));
        for chunk in &chunks[..chunks.len() - 1] {
            assert!(chunk.chars().count() >= budget);
        }
    }
}

#[test]
fn budget_counts_characters() {
    let chunks = chunk_text("你好\r\n世界\r\n再见", 4);
    assert_eq!(chunks, texts(&["你好世界", "再见"]));
}

#[test]
fn zero_budget_makes_a_chunk_of_each_non_empty_line() {
    assert_eq!(chunk_text("a\r\n\r\nb", 0), texts(&["a", "b"]));
}

#[test]
fn full_width_spaces_are_removed() {
    assert_eq!(chunk_text("\u{3000}\u{3000}ab\u{3000}c", 100), texts(&["abc"]));
}

#[test]
fn lone_line_feed_is_no_line_boundary_of_a_text_source() {
    assert_eq!(chunk_text("ab\ncd\r\nef", 5), texts(&["ab\ncd", "ef"]));
}

#[test]
fn gbk_bytes_are_decoded() {
    // "你好" and a full-width space, a line separator, "世界"
    let raw: [u8; 12] = [0xC4, 0xE3, 0xBA, 0xC3, 0xA1, 0xA1, 0x0D, 0x0A, 0xCA, 0xC0, 0xBD, 0xE7];
    assert_eq!(chunk_text_source(&raw, 2), Ok(texts(&["你好", "世界"])));
    assert_eq!(chunk_text_source(&raw, 100), Ok(texts(&["你好世界"])));
}

#[test]
fn ascii_bytes_decode_to_themselves() {
    assert_eq!(chunk_text_source(b"plain text", 3), Ok(texts(&["plain text"])));
}

#[test]
fn malformed_gbk_is_an_encoding_error() {
    let raw: [u8; 3] = [0x61, 0xFF, 0x62];
    assert_eq!(
        chunk_text_source(&raw, 100),
        Err(EncodingError { encoding: SourceEncoding::Gbk })
    );
}

#[test]
fn decoded_text_with_replacements_is_refused() {
    assert_eq!(
        chunk_decoded("a\u{FFFD}b", true, 100),
        Err(EncodingError { encoding: SourceEncoding::Gbk })
    );
    assert_eq!(chunk_decoded("ab", false, 100), Ok(texts(&["ab"])));
}

#[test]
fn lines_are_grouped_by_count() {
    let text = "1\n2\n3\n4\n5\n6\n7";
    assert_eq!(chunk_lines(text, 3), texts(&["1\r\n2\r\n3", "4\r\n5\r\n6", "7"]));
    assert_eq!(chunk_lines(text, 7), texts(&["1\r\n2\r\n3\r\n4\r\n5\r\n6\r\n7"]));
    assert_eq!(chunk_lines(text, 100), texts(&["1\r\n2\r\n3\r\n4\r\n5\r\n6\r\n7"]));
}

#[test]
fn empty_lines_are_left_out() {
    let text = "a\n\nb\r\n\r\n\nc\n";
    assert_eq!(chunk_lines(text, 2), texts(&["a\r\nb", "c"]));
}

#[test]
fn carriage_return_is_dropped_only_before_a_line_feed() {
    assert_eq!(chunk_lines("a\r\nb\rc\nd\r", 10), texts(&["a\r\nb\rc\r\nd\r"]));
}

#[test]
fn zero_lines_per_chunk_counts_as_one() {
    assert_eq!(chunk_lines("a\nb", 0), texts(&["a", "b"]));
}

#[test]
fn line_chunks_hold_the_lines_of_the_text() {
    let text = "# title\n\nfirst\nsecond\r\n\nthird\n";
    for per_chunk in 1..6 {
        let chunks = chunk_lines(text, per_chunk);
        let lines: Vec<String> =
            chunks.iter().flat_map(|c| c.split("\r\n").map(|l| l.to_string())).collect();
        assert_eq!(lines, texts(&["# title", "first", "second", "third"]));
        for chunk in &chunks[..chunks.len() - 1] {
            assert_eq!(chunk.split("\r\n").count(), per_chunk);
        }
    }
}

#[test]
fn utf8_bytes_of_a_line_source_are_decoded() {
    assert_eq!(
        chunk_line_source("第一\n第二\n".as_bytes(), 1),
        Ok(texts(&["第一", "第二"]))
    );
}

#[test]
fn invalid_utf8_is_an_encoding_error() {
    let raw: [u8; 4] = [0x61, 0xC4, 0xE3, 0x62];
    assert_eq!(
        chunk_line_source(&raw, 10),
        Err(EncodingError { encoding: SourceEncoding::Utf8 })
    );
}
