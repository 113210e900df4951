use documind::style::{frame_paragraph, highlight, split_paragraphs, style_text};

#[test]
fn text_is_split_at_blank_lines() {
    assert_eq!(split_paragraphs("one\n\ntwo\n\nthree"), vec!["one", "two", "three"]);
    assert_eq!(split_paragraphs("single line"), vec!["single line"]);
    assert_eq!(split_paragraphs("line\nnext line"), vec!["line\nnext line"]);
}

#[test]
fn split_keeps_empty_paragraphs() {
    assert_eq!(split_paragraphs(""), vec![""]);
    assert_eq!(split_paragraphs("\n\n"), vec!["", ""]);
    assert_eq!(split_paragraphs("a\n\n"), vec!["a", ""]);
    assert_eq!(split_paragraphs("\n\na"), vec!["", "a"]);
    assert_eq!(split_paragraphs("\n\n\n\n"), vec!["", "", ""]);
}

#[test]
fn split_takes_blank_lines_from_the_left() {
    assert_eq!(split_paragraphs("a\n\n\nb"), vec!["a", "\nb"]);
    assert_eq!(split_paragraphs("a\n\n\n\n\nb"), vec!["a", "", "\nb"]);
    assert_eq!(split_paragraphs("a\n"), vec!["a\n"]);
    assert_eq!(split_paragraphs("\n"), vec!["\n"]);
    assert_eq!(split_paragraphs("é\n\nü\n"), vec!["é", "ü\n"]);
}

#[test]
fn split_agrees_with_the_standard_library() {
    let samples = ["", "\n", "\n\n", "\n\n\n", "a\n\nb\n\n\nc\n\n\n\nd", "x\ny\n\nz\n", "\n\n\n\n\n\n\n"];
    for sample in samples.iter() {
        let expected: Vec<String> = sample.split("\n\n").map(|p| p.to_string()).collect();
        assert_eq!(split_paragraphs(sample), expected);
    }
}

#[test]
fn paragraph_is_framed() {
    assert_eq!(frame_paragraph("text"), "<p>text</p>");
    assert_eq!(frame_paragraph(""), "<p></p>");
}

#[test]
fn words_of_note_are_marked() {
    assert_eq!(
        highlight("an important note: no error"),
        Some("an <span class='highlight'>important</span> <span class='highlight'>note</span>: no <span class='highlight'>error</span>".to_string())
    );
    assert_eq!(highlight("nothing here"), Some("nothing here".to_string()));
    assert_eq!(highlight("unimportant notes, errors"), Some("unimportant notes, errors".to_string()));
    assert_eq!(
        highlight("warning! success."),
        Some("<span class='highlight'>warning</span>! <span class='highlight'>success</span>.".to_string())
    );
}

#[test]
fn only_long_paragraphs_are_shown() {
    let short = "a short paragraph with an error";
    let long = format!("{} note", "x".repeat(100));
    let text = format!("{}\n\n{}\n\n{}", short, long, short);
    let expected = format!("<p>{} <span class='highlight'>note</span></p>", "x".repeat(100));
    assert_eq!(style_text(&text), Some(vec![expected]));
    assert_eq!(style_text(short), Some(Vec::new()));
    assert_eq!(style_text(""), Some(Vec::new()));
}

#[test]
fn length_is_counted_in_bytes_and_must_exceed_100() {
    let exactly = "y".repeat(100);
    assert_eq!(style_text(&exactly), Some(Vec::new()));
    let one_more = "y".repeat(101);
    assert_eq!(style_text(&one_more), Some(vec![format!("<p>{}</p>", one_more)]));
    let two_bytes_each = "é".repeat(51);
    assert_eq!(style_text(&two_bytes_each), Some(vec![format!("<p>{}</p>", two_bytes_each)]));
    let fifty = "é".repeat(50);
    assert_eq!(style_text(&fifty), Some(Vec::new()));
}

#[test]
fn paragraphs_keep_their_order() {
    let first = format!("first {}", "a".repeat(100));
    let second = format!("second {}", "b".repeat(100));
    let text = format!("{}\n\n{}", first, second);
    assert_eq!(style_text(&text), Some(vec![format!("<p>{}</p>", first), format!("<p>{}</p>", second)]));
}
