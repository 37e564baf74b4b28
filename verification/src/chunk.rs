//! The chunker: splits a text, already tokenized, into overlapping token
//! windows sized for the embedding model's context limit.
//!
//! Policy on window text (two paths on purpose): a text of at most
//! `chunk_size` tokens is returned verbatim as one window, while a longer
//! text is cut into windows whose text is the concatenation of the raw token
//! strings in range, which may differ from the source text in spacing.

use vstd::prelude::*;

use crate::tokenize::tokenize;

verus! {

/// Window size, in tokens, matching the embedding model's context limit.
pub const DEFAULT_CHUNK_SIZE: usize = 512;

/// Tokens repeated between consecutive windows.
pub const DEFAULT_CHUNK_OVERLAP: usize = 56;

/// One bounded token-range slice of the input text.
#[derive(Clone, Debug)]
pub struct ChunkWindow {
    pub text: String,
    pub start_token_index: usize,
    pub end_token_index: usize,
}

#[derive(Clone, Copy, Debug, PartialEq, Eq, Structural)]
pub enum ChunkError {
    /// `overlap >= chunk_size`: the window slide would make no progress.
    NonProgressingOverlap,
    /// The tokenizer failed on the input text.
    Tokenization,
}

pub open spec fn min_int(a: int, b: int) -> int {
    if a < b {
        a
    } else {
        b
    }
}

/// How many windows the slide produces over `n` tokens when each step
/// advances the start by `s`: starts run `0, s, 2*s, ...` while they stay
/// below `n`.
pub open spec fn window_count(n: int, s: int) -> nat
    decreases n,
{
    if s <= 0 || n <= 0 {
        0
    } else if n <= s {
        1
    } else {
        1 + window_count(n - s, s)
    }
}

/// The characters of `tokens[start..end]`, concatenated.
pub open spec fn concat_range(tokens: Seq<String>, start: int, end: int) -> Seq<char>
    decreases end - start,
{
    if start >= end {
        Seq::empty()
    } else {
        concat_range(tokens, start, end - 1) + tokens[end - 1]@
    }
}

/// `w` is the `i`-th window of the slide over `tokens`.
pub open spec fn window_at(
    tokens: Seq<String>,
    chunk_size: int,
    overlap: int,
    w: ChunkWindow,
    i: int,
) -> bool {
    let s = chunk_size - overlap;
    let n = tokens.len() as int;
    let start = i * s;
    let end = min_int(start + chunk_size, n);
    &&& w.start_token_index == start
    &&& w.end_token_index == end
    &&& w.text@ == concat_range(tokens, start, end)
}

/// The full statement of what the chunker returns: one verbatim window where
/// the whole text fits, else the windows of the slide, in order.
pub open spec fn windows_ok(
    tokens: Seq<String>,
    text: Seq<char>,
    chunk_size: int,
    overlap: int,
    r: Seq<ChunkWindow>,
) -> bool {
    let n = tokens.len() as int;
    if n <= chunk_size {
        &&& r.len() == 1
        &&& r[0].text@ == text
        &&& r[0].start_token_index == 0
        &&& r[0].end_token_index == n
    } else {
        &&& r.len() == window_count(n, chunk_size - overlap)
        &&& forall|i: int|
            0 <= i < r.len() ==> #[trigger] window_at(tokens, chunk_size, overlap, r[i], i)
    }
}

/// Splits `text`, whose token strings are `tokens`, into overlapping windows.
/// A configuration with `overlap >= chunk_size` makes no progress and is
/// rejected before anything is iterated.
pub fn chunk_tokens(
    text: &str,
    tokens: &Vec<String>,
    chunk_size: usize,
    overlap: usize,
) -> (r: Result<Vec<ChunkWindow>, ChunkError>)
    ensures
        match r {
            Ok(ws) => overlap < chunk_size && windows_ok(
                tokens@,
                text@,
                chunk_size as int,
                overlap as int,
                ws@,
            ),
            Err(e) => e == ChunkError::NonProgressingOverlap && overlap >= chunk_size,
        },
{
    if overlap >= chunk_size {
        return Err(ChunkError::NonProgressingOverlap);
    }
    let n = tokens.len();
    let mut windows: Vec<ChunkWindow> = Vec::new();
    if n <= chunk_size {
        windows.push(ChunkWindow { text: text.to_owned(), start_token_index: 0, end_token_index: n });
        return Ok(windows);
    }
    let s = chunk_size - overlap;
    let mut start: usize = 0;
    while start < n
        invariant_except_break
            n == tokens@.len(),
            s == chunk_size - overlap,
            1 <= s,
            s <= chunk_size,
            chunk_size < n,
            start == windows@.len() * s,
            window_count(n as int, s as int) == windows@.len() + window_count(
                n - start,
                s as int,
            ),
            forall|i: int|
                0 <= i < windows@.len() ==> #[trigger] window_at(
                    tokens@,
                    chunk_size as int,
                    overlap as int,
                    windows@[i],
                    i,
                ),
        ensures
            n == tokens@.len(),
            windows@.len() == window_count(n as int, s as int),
            forall|i: int|
                0 <= i < windows@.len() ==> #[trigger] window_at(
                    tokens@,
                    chunk_size as int,
                    overlap as int,
                    windows@[i],
                    i,
                ),
        decreases n - start,
    {
        let end = if n - start < chunk_size {
            n
        } else {
            start + chunk_size
        };
        let mut t = String::new();
        let mut j = start;
        while j < end
            invariant
                start <= j <= end,
                end <= n,
                n == tokens@.len(),
                t@ == concat_range(tokens@, start as int, j as int),
            decreases end - j,
        {
            t.append(tokens[j].as_str());
            j = j + 1;
        }
        let ghost k = windows@.len() as int;
        windows.push(ChunkWindow { text: t, start_token_index: start, end_token_index: end });
        proof {
            assert(window_at(tokens@, chunk_size as int, overlap as int, windows@[k], k));
            assert((k + 1) * s == k * s + s) by (nonlinear_arith);
        }
        if n - start <= s {
            break;
        }
        start = start + s;
    }
    Ok(windows)
}

/// Splits `text` into overlapping token windows, tokenizing it first; the
/// window structure over the tokens the tokenizer returned is stated by
/// `windows_ok`.
pub fn chunk_text(
    tokenizer: &tokenizers::Tokenizer,
    text: &str,
    chunk_size: usize,
    overlap: usize,
) -> (r: Result<Vec<ChunkWindow>, ChunkError>)
    ensures
        match r {
            Ok(ws) => overlap < chunk_size && exists|tokens: Seq<String>|
                windows_ok(tokens, text@, chunk_size as int, overlap as int, ws@),
            Err(ChunkError::NonProgressingOverlap) => overlap >= chunk_size,
            Err(ChunkError::Tokenization) => overlap < chunk_size,
        },
{
    if overlap >= chunk_size {
        return Err(ChunkError::NonProgressingOverlap);
    }
    let tokens = match tokenize(tokenizer, text) {
        Some(t) => t,
        None => {
            return Err(ChunkError::Tokenization);
        },
    };
    match chunk_tokens(text, &tokens, chunk_size, overlap) {
        Ok(ws) => {
            proof {
                assert(windows_ok(tokens@, text@, chunk_size as int, overlap as int, ws@));
            }
            Ok(ws)
        },
        Err(e) => Err(e),
    }
}

proof fn lemma_stride_covers(n: int, s: int)
    requires
        1 <= s,
        1 <= n,
    ensures
        window_count(n, s) * s >= n,
    decreases n,
{
    if n <= s {
        assert(window_count(n, s) == 1);
        assert(1 * s == s) by (nonlinear_arith);
    } else {
        lemma_stride_covers(n - s, s);
        let k = window_count(n - s, s) as int;
        assert(k * s >= n - s);
        assert(window_count(n, s) == k + 1);
        assert((k + 1) * s == k * s + s) by (nonlinear_arith);
    }
}

/// The windows cover the whole input: there is at least one, and the last
/// one ends exactly at the token count.
pub proof fn lemma_windows_cover(
    tokens: Seq<String>,
    text: Seq<char>,
    chunk_size: int,
    overlap: int,
    r: Seq<ChunkWindow>,
)
    requires
        0 <= overlap < chunk_size,
        windows_ok(tokens, text, chunk_size, overlap, r),
    ensures
        r.len() >= 1,
        r[r.len() - 1].end_token_index == tokens.len(),
{
    let n = tokens.len() as int;
    let s = chunk_size - overlap;
    if n > chunk_size {
        lemma_stride_covers(n, s);
        let k = window_count(n, s) as int;
        assert(window_at(tokens, chunk_size, overlap, r[k - 1], k - 1));
        assert((k - 1) * s + s == k * s) by (nonlinear_arith);
    }
}

/// Two consecutive windows of the slide share exactly `overlap` token
/// indices, as long as the earlier window is full (only the final window of
/// an input is ever truncated below `chunk_size` tokens, except where the
/// slide's tail end passes the token count early).
pub proof fn lemma_consecutive_windows_overlap(
    tokens: Seq<String>,
    text: Seq<char>,
    chunk_size: int,
    overlap: int,
    r: Seq<ChunkWindow>,
    i: int,
)
    requires
        0 < chunk_size,
        0 <= overlap < chunk_size,
        tokens.len() > chunk_size,
        windows_ok(tokens, text, chunk_size, overlap, r),
        0 <= i,
        i + 1 < r.len(),
        r[i].end_token_index == r[i].start_token_index + chunk_size,
    ensures
        r[i + 1].start_token_index <= r[i].end_token_index,
        r[i].end_token_index - r[i + 1].start_token_index == overlap,
{
    let s = chunk_size - overlap;
    assert(window_at(tokens, chunk_size, overlap, r[i], i));
    assert(window_at(tokens, chunk_size, overlap, r[i + 1], i + 1));
    assert((i + 1) * s == i * s + s) by (nonlinear_arith);
}

} // verus!
