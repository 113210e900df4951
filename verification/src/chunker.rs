//! Splitting text into bounded pieces.
use vstd::prelude::*;
use vstd::std_specs::iter::IteratorSpec;
use crate::error::PipelineError;

verus! {

/// The views of a sequence of strings.
pub open spec fn texts(strings: Seq<String>) -> Seq<Seq<char>> {
    strings.map_values(|s: String| s@)
}

/// `text` cut into consecutive pieces of `size` characters; the last piece holds
/// what is left. No piece is empty.
pub open spec fn chunks_of(text: Seq<char>, size: nat) -> Seq<Seq<char>>
    decreases text.len(),
{
    if size == 0 || text.len() == 0 {
        Seq::empty()
    } else if text.len() <= size {
        seq![text]
    } else {
        seq![text.take(size as int)] + chunks_of(text.skip(size as int), size)
    }
}

/// A text of at least `size` characters starts with a piece of exactly `size`
/// characters, followed by the pieces of the rest.
pub proof fn lemma_chunks_unfold(text: Seq<char>, size: nat)
    requires
        0 < size <= text.len(),
    ensures
        chunks_of(text, size) == seq![text.take(size as int)] + chunks_of(
            text.skip(size as int),
            size,
        ),
{
    if text.len() == size {
        assert(text.take(size as int) =~= text);
        assert(chunks_of(text.skip(size as int), size) =~= Seq::<Seq<char>>::empty());
        assert(seq![text] =~= seq![text] + Seq::<Seq<char>>::empty());
    }
}

/// Joining the pieces of a text gives the text back.
pub proof fn lemma_chunks_rebuild_text(text: Seq<char>, size: nat)
    requires
        size > 0,
    ensures
        chunks_of(text, size).flatten() == text,
    decreases text.len(),
{
    broadcast use Seq::lemma_flatten_singleton;

    if text.len() == 0 {
        assert(chunks_of(text, size).flatten() =~= text);
    } else if text.len() <= size {
        assert(seq![text].flatten() =~= text);
    } else {
        let head = text.take(size as int);
        let tail = text.skip(size as int);
        lemma_chunks_rebuild_text(tail, size);
        let pieces = chunks_of(text, size);
        assert(pieces.first() == head);
        assert(pieces.drop_first() =~= chunks_of(tail, size));
        assert(pieces.flatten() == head + chunks_of(tail, size).flatten());
        assert(head + tail =~= text);
    }
}

/// Every piece of a text holds at least one character and at most `size`.
pub proof fn lemma_chunks_bounded(text: Seq<char>, size: nat)
    requires
        size > 0,
    ensures
        forall|i: int|
            0 <= i < chunks_of(text, size).len() ==> 0 < (#[trigger] chunks_of(
                text,
                size,
            )[i]).len() <= size,
    decreases text.len(),
{
    let pieces = chunks_of(text, size);
    if text.len() > size {
        let tail = chunks_of(text.skip(size as int), size);
        lemma_chunks_bounded(text.skip(size as int), size);
        assert forall|i: int| 0 <= i < pieces.len() implies 0 < (#[trigger] pieces[i]).len()
            <= size by {
            if i > 0 {
                assert(pieces[i] == tail[i - 1]);
            }
        }
    }
}

/// The number of pieces is the text's length divided by `size`, rounded up.
pub proof fn lemma_chunks_count(text: Seq<char>, size: nat)
    requires
        size > 0,
    ensures
        chunks_of(text, size).len() == (text.len() + size - 1) / (size as int),
    decreases text.len(),
{
    let n = size as int;
    let len = text.len() as int;
    if len == 0 {
        assert((len + n - 1) / n == 0) by (nonlinear_arith)
            requires
                len == 0,
                n > 0,
        ;
    } else if len <= n {
        assert((len + n - 1) / n == 1) by (nonlinear_arith)
            requires
                0 < len <= n,
        ;
    } else {
        lemma_chunks_count(text.skip(n), size);
        assert((len + n - 1) / n == (len - n + n - 1) / n + 1) by (nonlinear_arith)
            requires
                len > n,
                n > 0,
        ;
    }
}

/// The piece at position `i` holds the characters from `i * size` on, `size` of
/// them or as many as are left.
pub proof fn lemma_chunk_at(text: Seq<char>, size: nat, i: int)
    requires
        size > 0,
        0 <= i < chunks_of(text, size).len(),
    ensures
        i * size < text.len(),
        chunks_of(text, size)[i] == text.subrange(
            i * size,
            if (i + 1) * size <= text.len() {
                (i + 1) * size
            } else {
                text.len() as int
            },
        ),
    decreases text.len(),
{
    let n = size as int;
    let len = text.len() as int;
    assert(0 * n == 0 && (0 + 1) * n == n) by (nonlinear_arith);
    if len <= n {
        assert(text.subrange(0, len) =~= text);
    } else if i == 0 {
        assert(text.take(n) =~= text.subrange(0, n));
    } else {
        let tail = text.skip(n);
        assert(chunks_of(text, size)[i] == chunks_of(tail, size)[i - 1]);
        lemma_chunk_at(tail, size, i - 1);
        assert((i - 1) * n + n == i * n && (i - 1 + 1) * n + n == (i + 1) * n)
            by (nonlinear_arith);
        let end = if (i + 1) * n <= len {
            (i + 1) * n
        } else {
            len
        };
        assert(tail.subrange((i - 1) * n, end - n) =~= text.subrange(i * n, end));
    }
}

/// `String::push` appends one character.
pub assume_specification[ String::push ](s: &mut String, ch: char)
    ensures
        final(s)@ == old(s)@.push(ch),
;

/// Splits `text` by characters into pieces of at most `chunk_size` characters.
pub fn chunk_text(text: &str, chunk_size: usize) -> (chunks: Vec<String>)
    requires
        chunk_size > 0,
    ensures
        texts(chunks@) == chunks_of(text@, chunk_size as nat),
        texts(chunks@).flatten() == text@,
        forall|i: int|
            0 <= i < chunks@.len() ==> 0 < (#[trigger] chunks@[i])@.len() <= chunk_size,
        text@.len() == 0 ==> chunks@.len() == 0,
{
    proof {
        lemma_chunks_rebuild_text(text@, chunk_size as nat);
        lemma_chunks_bounded(text@, chunk_size as nat);
    }
    let mut chunks: Vec<String> = Vec::new();
    let mut current = String::new();
    let mut filled: usize = 0;
    let ghost mut start: int = 0;
    proof {
        assert(texts(chunks@) =~= Seq::<Seq<char>>::empty());
        assert(text@.skip(0) =~= text@);
    }
    for c in it: text.chars()
        invariant
            chunk_size > 0,
            it.seq() == text@,
            0 <= start <= it.index(),
            filled as int == it.index() - start,
            filled < chunk_size,
            current@ == text@.subrange(start, it.index() as int),
            texts(chunks@) + chunks_of(text@.skip(start), chunk_size as nat) == chunks_of(
                text@,
                chunk_size as nat,
            ),
    {
        current.push(c);
        filled = filled + 1;
        if filled == chunk_size {
            proof {
                let rest = text@.skip(start);
                lemma_chunks_unfold(rest, chunk_size as nat);
                assert(rest.take(chunk_size as int) =~= current@);
                assert(rest.skip(chunk_size as int) =~= text@.skip(it.index() + 1));
                assert(texts(chunks@.push(current)) =~= texts(chunks@) + seq![current@]);
                start = it.index() + 1;
            }
            chunks.push(current);
            current = String::new();
            filled = 0;
        }
    }
    if filled > 0 {
        proof {
            assert(text@.skip(start) =~= current@);
            assert(texts(chunks@.push(current)) =~= texts(chunks@) + seq![current@]);
        }
        chunks.push(current);
    }
    proof {
        assert forall|i: int| 0 <= i < chunks@.len() implies 0 < (#[trigger] chunks@[i])@.len()
            <= chunk_size by {
            assert(texts(chunks@)[i] == chunks@[i]@);
        }
    }
    chunks
}

/// Splits `text` as [`chunk_text`] does, after checking the piece size: a size
/// of zero is refused before any splitting.
pub fn chunk(text: &str, max_chars: usize) -> (result: Result<Vec<String>, PipelineError>)
    ensures
        max_chars == 0 <==> result == Err::<Vec<String>, PipelineError>(PipelineError::Chunking),
        max_chars > 0 ==> result is Ok && texts(result->Ok_0@) == chunks_of(
            text@,
            max_chars as nat,
        ),
{
    if max_chars == 0 {
        Err(PipelineError::Chunking)
    } else {
        Ok(chunk_text(text, max_chars))
    }
}

} // verus!
