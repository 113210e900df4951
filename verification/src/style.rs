//! Preparing a document's text for display: paragraphs, with words of note
//! marked.
use vstd::prelude::*;
use vstd::std_specs::iter::IteratorSpec;
use vstd::string::StringExecFns;
use vstd::utf8::encode_utf8;
use crate::chunker::texts;

verus! {

/// Two line feeds stand at `i` and behind it.
pub open spec fn break_at(text: Seq<char>, i: int) -> bool {
    0 <= i && i + 1 < text.len() && text[i] == '\n' && text[i + 1] == '\n'
}

/// The first blank line of `text` starts at `i`.
pub open spec fn first_break(text: Seq<char>, i: int) -> bool {
    break_at(text, i) && forall|j: int| 0 <= j < i ==> !break_at(text, j)
}

/// The paragraphs of a text: what stands between its blank lines, taken from
/// the left. A text without a blank line is one paragraph.
pub open spec fn paragraphs_of(text: Seq<char>) -> Seq<Seq<char>>
    decreases text.len(),
{
    if exists|i: int| first_break(text, i) {
        let i = choose|i: int| first_break(text, i);
        seq![text.take(i)] + paragraphs_of(text.skip(i + 2))
    } else {
        seq![text]
    }
}

/// A text whose first blank line starts at `i` is the paragraph before it,
/// followed by the paragraphs of what comes after the blank line.
pub proof fn lemma_split_at_break(text: Seq<char>, i: int)
    requires
        first_break(text, i),
    ensures
        paragraphs_of(text) == seq![text.take(i)] + paragraphs_of(text.skip(i + 2)),
{
    let k = choose|k: int| first_break(text, k);
    assert(first_break(text, k));
    if k < i {
        assert(!break_at(text, k));
    } else if i < k {
        assert(!break_at(text, i));
    }
}

/// A paragraph is shown only if it takes more than 100 bytes in UTF-8.
pub open spec fn is_long(paragraph: Seq<char>) -> bool {
    encode_utf8(paragraph).len() > 100
}

/// The pattern that finds the words to mark.
pub open spec fn important_words() -> Seq<char> {
    "\\b(important|error|warning|success|note)\\b"@
}

/// What a marked word is replaced with: itself, inside a highlighting element.
pub open spec fn highlight_markup() -> Seq<char> {
    "<span class='highlight'>$0</span>"@
}

/// `text` with every match of the regular expression `pattern` replaced as
/// `replacement` says; `None` where the pattern is not accepted.
pub uninterp spec fn regex_replaced(
    pattern: Seq<char>,
    text: Seq<char>,
    replacement: Seq<char>,
) -> Option<Seq<char>>;

/// Compiles `pattern` with `regex::Regex::new` and replaces every match in `text`
/// with `Regex::replace_all`. Nothing is proved of it: the result is only given
/// its name, [`regex_replaced`].
#[verifier::external_body]
fn replace_matches(pattern: &str, text: &str, replacement: &str) -> (replaced: Option<String>)
    ensures
        replaced is Some <==> regex_replaced(pattern@, text@, replacement@) is Some,
        replaced is Some ==> replaced->Some_0@ == regex_replaced(
            pattern@,
            text@,
            replacement@,
        )->Some_0,
{
    match regex::Regex::new(pattern) {
        Ok(found) => Some(found.replace_all(text, replacement).into_owned()),
        Err(_) => None,
    }
}

/// A paragraph as it is shown.
pub open spec fn framed(paragraph: Seq<char>) -> Seq<char> {
    "<p>"@ + paragraph + "</p>"@
}

/// The long paragraphs among `parts`, each with its words of note marked and
/// framed as a paragraph; `None` where the marking fails.
pub open spec fn styled(parts: Seq<Seq<char>>) -> Option<Seq<Seq<char>>>
    decreases parts.len(),
{
    if parts.len() == 0 {
        Some(Seq::empty())
    } else {
        match styled(parts.drop_last()) {
            None => None,
            Some(before) => if is_long(parts.last()) {
                match regex_replaced(important_words(), parts.last(), highlight_markup()) {
                    Some(marked) => Some(before.push(framed(marked))),
                    None => None,
                }
            } else {
                Some(before)
            },
        }
    }
}

/// Once the marking has failed on the first `k` paragraphs, it has failed.
pub proof fn lemma_styled_stays_failed(parts: Seq<Seq<char>>, k: int)
    requires
        0 <= k <= parts.len(),
        styled(parts.take(k)) is None,
    ensures
        styled(parts) is None,
    decreases parts.len() - k,
{
    if k < parts.len() {
        assert(parts.take(k + 1).drop_last() =~= parts.take(k));
        lemma_styled_stays_failed(parts, k + 1);
    } else {
        assert(parts.take(k) =~= parts);
    }
}

/// Splits a text into its paragraphs.
pub fn split_paragraphs(text: &str) -> (parts: Vec<String>)
    ensures
        texts(parts@) == paragraphs_of(text@),
{
    let mut parts: Vec<String> = Vec::new();
    let mut current = String::new();
    let mut held = false;
    let ghost mut start: int = 0;
    proof {
        assert(text@.skip(0) =~= text@);
        assert(texts(parts@) + paragraphs_of(text@) =~= paragraphs_of(text@));
        assert(current@ =~= text@.subrange(0, 0));
    }
    for c in it: text.chars()
        invariant
            it.seq() == text@,
            0 <= start <= it.index(),
            held ==> it.index() > start && text@[it.index() - 1] == '\n' && current@.push('\n')
                == text@.subrange(start, it.index() as int),
            !held ==> current@ == text@.subrange(start, it.index() as int),
            !held && it.index() > start ==> text@[it.index() - 1] != '\n',
            forall|j: int| start <= j && j + 1 < it.index() ==> !#[trigger] break_at(text@, j),
            texts(parts@) + paragraphs_of(text@.skip(start)) == paragraphs_of(text@),
    {
        let ghost at = it.index() as int;
        if c == '\n' {
            if held {
                proof {
                    let rest = text@.skip(start);
                    let i = at - 1 - start;
                    assert(break_at(rest, i));
                    assert forall|j: int| 0 <= j < i implies !break_at(rest, j) by {
                        assert(rest[j] == text@[start + j]);
                        assert(rest[j + 1] == text@[start + j + 1]);
                        assert(!break_at(text@, start + j));
                    }
                    lemma_split_at_break(rest, i);
                    assert(rest.take(i) =~= text@.subrange(start, at - 1));
                    assert(current@ =~= current@.push('\n').drop_last());
                    assert(text@.subrange(start, at).drop_last() =~= text@.subrange(start, at - 1));
                    assert(rest.skip(i + 2) =~= text@.skip(at + 1));
                    assert(texts(parts@.push(current)) =~= texts(parts@) + seq![current@]);
                    start = at + 1;
                }
                parts.push(current);
                current = String::new();
                held = false;
                proof {
                    assert(current@ =~= text@.subrange(start, at + 1));
                }
            } else {
                held = true;
                proof {
                    assert(current@.push('\n') =~= text@.subrange(start, at + 1));
                }
            }
        } else {
            if held {
                current.push('\n');
                held = false;
            }
            current.push(c);
            proof {
                assert(current@ =~= text@.subrange(start, at + 1));
            }
        }
    }
    if held {
        current.push('\n');
    }
    proof {
        let rest = text@.skip(start);
        assert(current@ =~= rest);
        assert forall|j: int| !first_break(rest, j) by {
            if break_at(rest, j) {
                assert(rest[j] == text@[start + j]);
                assert(rest[j + 1] == text@[start + j + 1]);
                assert(!break_at(text@, start + j));
            }
        }
        assert(texts(parts@.push(current)) =~= texts(parts@) + seq![current@]);
    }
    parts.push(current);
    parts
}

/// Frames a paragraph for display.
pub fn frame_paragraph(paragraph: &str) -> (shown: String)
    ensures
        shown@ == framed(paragraph@),
{
    let mut shown = String::from_str("<p>");
    shown.append(paragraph);
    shown.append("</p>");
    shown
}

/// Marks the words of note in a paragraph; `None` where the marking fails.
pub fn highlight(paragraph: &str) -> (marked: Option<String>)
    ensures
        marked is Some <==> regex_replaced(important_words(), paragraph@, highlight_markup())
            is Some,
        marked is Some ==> marked->Some_0@ == regex_replaced(
            important_words(),
            paragraph@,
            highlight_markup(),
        )->Some_0,
{
    replace_matches(
        "\\b(important|error|warning|success|note)\\b",
        paragraph,
        "<span class='highlight'>$0</span>",
    )
}

/// Prepares a text for display: its long paragraphs, in their order, each with
/// its words of note marked and framed as a paragraph. `None` where the marking
/// fails.
pub fn style_text(text: &str) -> (result: Option<Vec<String>>)
    ensures
        result is Some <==> styled(paragraphs_of(text@)) is Some,
        result is Some ==> texts(result->Some_0@) == styled(paragraphs_of(text@))->Some_0,
{
    let paragraphs = split_paragraphs(text);
    let mut styled_parts: Vec<String> = Vec::new();
    let mut i: usize = 0;
    let ghost all = paragraphs_of(text@);
    proof {
        assert(texts(styled_parts@) =~= Seq::<Seq<char>>::empty());
        assert(all.take(0) =~= Seq::<Seq<char>>::empty());
    }
    while i < paragraphs.len()
        invariant
            i <= paragraphs.len(),
            all == paragraphs_of(text@),
            texts(paragraphs@) == all,
            styled(all.take(i as int)) == Some(texts(styled_parts@)),
        decreases paragraphs.len() - i,
    {
        let para = paragraphs[i].as_str();
        proof {
            assert(texts(paragraphs@)[i as int] == paragraphs@[i as int]@);
            assert(all.take(i + 1).drop_last() =~= all.take(i as int));
            assert(all.take(i + 1).last() == para@);
        }
        let long = para.as_bytes().len() > 100;
        proof {
            assert(long == is_long(para@));
            let upto = all.take(i + 1);
            assert(styled(upto) == match styled(upto.drop_last()) {
                None => None,
                Some(before) => if is_long(upto.last()) {
                    match regex_replaced(important_words(), upto.last(), highlight_markup()) {
                        Some(marked) => Some(before.push(framed(marked))),
                        None => None,
                    }
                } else {
                    Some(before)
                },
            });
        }
        if long {
            match highlight(para) {
                Some(marked) => {
                    let shown = frame_paragraph(marked.as_str());
                    proof {
                        assert(texts(styled_parts@.push(shown)) =~= texts(styled_parts@).push(
                            shown@,
                        ));
                    }
                    styled_parts.push(shown);
                },
                None => {
                    proof {
                        lemma_styled_stays_failed(all, i + 1);
                    }
                    return None;
                },
            }
        }
        i = i + 1;
    }
    proof {
        assert(all.take(i as int) =~= all);
    }
    Some(styled_parts)
}

} // verus!
