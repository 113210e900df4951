use documind::chunker::{chunk, chunk_text};
use documind::error::PipelineError;

#[test]
fn empty_text_gives_no_chunk() {
    assert!(chunk_text("", 5).is_empty());
    assert_eq!(chunk("", 1), Ok(vec![]));
}

#[test]
fn text_is_cut_every_few_characters() {
    assert_eq!(chunk_text("hello world", 4), vec!["hell", "o wo", "rld"]);
}

#[test]
fn text_of_exact_multiple_has_no_short_chunk() {
    assert_eq!(chunk_text("abcdef", 3), vec!["abc", "def"]);
    assert_eq!(chunk_text("abcdef", 6), vec!["abcdef"]);
    assert_eq!(chunk_text("abcdef", 7), vec!["abcdef"]);
    assert_eq!(chunk_text("abcdef", 1), vec!["a", "b", "c", "d", "e", "f"]);
}

#[test]
fn chunks_count_characters_not_bytes() {
    assert_eq!(chunk_text("héllo wörld", 2), vec!["hé", "ll", "o ", "wö", "rl", "d"]);
    assert_eq!(chunk_text("日本語のテキスト", 3), vec!["日本語", "のテキ", "スト"]);
}

#[test]
fn a_chunk_may_split_a_word() {
    assert_eq!(chunk_text("retrieval", 5), vec!["retri", "eval"]);
}

#[test]
fn chunks_joined_give_the_text_back() {
    let text = "The quick brown fox jumps over the lazy dog. Ünïcödé too!";
    let mut size: usize = 1;
    while size <= 70 {
        let chunks = chunk_text(text, size);
        assert_eq!(chunks.concat(), text);
        for piece in chunks.iter() {
            let n = piece.chars().count();
            assert!(n >= 1 && n <= size);
        }
        let total = text.chars().count();
        assert_eq!(chunks.len(), (total + size - 1) / size);
        size += 1;
    }
}

#[test]
fn text_of_2500_characters_gives_three_chunks() {
    let text = "x".repeat(2500);
    let chunks = chunk_text(&text, 1000);
    assert_eq!(chunks.len(), 3);
    assert_eq!(chunks[0].chars().count(), 1000);
    assert_eq!(chunks[1].chars().count(), 1000);
    assert_eq!(chunks[2].chars().count(), 500);
}

#[test]
fn chunk_size_zero_is_refused() {
    assert_eq!(chunk("some text", 0), Err(PipelineError::Chunking));
    assert_eq!(chunk("", 0), Err(PipelineError::Chunking));
}

#[test]
fn checked_chunking_agrees_with_plain_chunking() {
    assert_eq!(chunk("hello world", 4), Ok(chunk_text("hello world", 4)));
}
