//! Decoding vector-search results and assembling the cited context block.
//!
//! Each record the vector index returns carries a payload whose fields may be
//! absent; decoding rejects a malformed record with a tagged error instead of
//! dropping it, because losing provenance on a cited answer is worse than
//! failing loudly. The assembler then merges the per-window result lists into
//! one numbered context text and a parallel list of source descriptors, in
//! window order and rank order, without deduplicating by source id.

use vstd::prelude::*;

use crate::decimal::{dec_rep, dec_string};
use crate::ids::{parse_uuid, uuid_value_of};

verus! {

/// The tagged reasons a search record's payload is rejected.
#[derive(Clone, Copy, Debug, PartialEq, Eq, Structural)]
pub enum PayloadError {
    /// The payload has no source-id field.
    MissingSourceId,
    /// The source-id field is not a textual UUID.
    InvalidSourceId,
    /// The payload has no text field.
    MissingText,
    /// The payload has no title field, though one was required.
    MissingTitle,
}

/// A record as the vector index hands it back: each payload field may be
/// absent.
#[derive(Debug)]
pub struct RawPoint {
    pub source_id: Option<String>,
    pub text: Option<String>,
    pub title: Option<String>,
}

/// A record whose payload decoded.
#[derive(Debug)]
pub struct DecodedPoint {
    pub source_id: u128,
    pub title: String,
    pub snippet: String,
}

/// A decoded record tagged with its 1-based rank within its own search call.
#[derive(Debug)]
pub struct SearchResult {
    pub rank: usize,
    pub source_id: u128,
    pub title: String,
    pub snippet: String,
}

/// The numbered, citable context block over all windows of one question, and
/// the source descriptors in the same order.
#[derive(Debug)]
pub struct AssembledContext {
    pub context_text: String,
    pub sources: Vec<SearchResult>,
}

/// Exactly how one raw record decodes: `r` is the outcome `decode_point`
/// owes for `p`.
pub open spec fn decode_point_rel(
    p: RawPoint,
    require_title: bool,
    r: Result<DecodedPoint, PayloadError>,
) -> bool {
    match r {
        Ok(d) => {
            &&& p.source_id matches Some(sid) && uuid_value_of(sid@) == Some(d.source_id)
            &&& p.text matches Some(t) && d.snippet == t
            &&& match p.title {
                Some(ti) => d.title == ti,
                None => !require_title && d.title@ == Seq::<char>::empty(),
            }
        },
        Err(e) => {
            ||| (p.source_id is None && e == PayloadError::MissingSourceId)
            ||| (p.source_id matches Some(sid) && uuid_value_of(sid@) is None && e
                == PayloadError::InvalidSourceId)
            ||| (p.source_id matches Some(sid) && uuid_value_of(sid@) is Some && p.text is None && e
                == PayloadError::MissingText)
            ||| (p.source_id matches Some(sid) && uuid_value_of(sid@) is Some && p.text is Some
                && p.title is None && require_title && e == PayloadError::MissingTitle)
        },
    }
}

pub open spec fn point_decodes_to(p: RawPoint, require_title: bool, d: DecodedPoint) -> bool {
    decode_point_rel(p, require_title, Ok(d))
}

pub open spec fn point_fails_with(p: RawPoint, require_title: bool, e: PayloadError) -> bool {
    decode_point_rel(p, require_title, Err(e))
}

/// Decodes one record. The title is required only where `require_title`
/// holds; a tolerated missing title decodes as the empty string.
pub fn decode_point(p: RawPoint, require_title: bool) -> (r: Result<DecodedPoint, PayloadError>)
    ensures
        decode_point_rel(p, require_title, r),
{
    let RawPoint { source_id, text, title } = p;
    let sid = match source_id {
        Some(s) => s,
        None => {
            return Err(PayloadError::MissingSourceId);
        },
    };
    let id = match parse_uuid(sid.as_str()) {
        Some(u) => u,
        None => {
            return Err(PayloadError::InvalidSourceId);
        },
    };
    let snippet = match text {
        Some(t) => t,
        None => {
            return Err(PayloadError::MissingText);
        },
    };
    let title = match title {
        Some(ti) => ti,
        None => {
            if require_title {
                return Err(PayloadError::MissingTitle);
            }
            String::new()
        },
    };
    Ok(DecodedPoint { source_id: id, title, snippet })
}

/// `d` is the elementwise decoding of the records `ps`.
pub open spec fn window_decodes_to(
    ps: Seq<RawPoint>,
    require_title: bool,
    d: Seq<DecodedPoint>,
) -> bool {
    &&& d.len() == ps.len()
    &&& forall|j: int|
        0 <= j < ps.len() ==> #[trigger] point_decodes_to(ps[j], require_title, d[j])
}

/// Decodes one search call's records, in order; the first malformed record
/// fails the whole window.
pub fn decode_window(points: Vec<RawPoint>, require_title: bool) -> (r: Result<
    Vec<DecodedPoint>,
    PayloadError,
>)
    ensures
        match r {
            Ok(d) => window_decodes_to(points@, require_title, d@),
            Err(e) => exists|j: int|
                0 <= j < points@.len() && #[trigger] point_fails_with(points@[j], require_title, e),
        },
{
    let ghost orig = points@;
    let mut rest = points;
    let mut out: Vec<DecodedPoint> = Vec::new();
    while rest.len() > 0
        invariant
            orig == points@,
            out@.len() + rest@.len() == orig.len(),
            rest@ == orig.subrange(out@.len() as int, orig.len() as int),
            forall|j: int|
                0 <= j < out@.len() ==> #[trigger] point_decodes_to(orig[j], require_title, out@[j]),
        decreases rest@.len(),
    {
        let ghost k = out@.len() as int;
        let p = rest.remove(0);
        proof {
            assert(p == orig[k]);
            assert(rest@ =~= orig.subrange(k + 1, orig.len() as int));
        }
        match decode_point(p, require_title) {
            Ok(d) => {
                out.push(d);
            },
            Err(e) => {
                proof {
                    assert(point_fails_with(points@[k], require_title, e));
                    assert(exists|j: int|
                        0 <= j < points@.len() && #[trigger] point_fails_with(
                            points@[j],
                            require_title,
                            e,
                        ));
                }
                return Err(e);
            },
        }
    }
    Ok(out)
}

/// `d` is the windowwise decoding of the per-window records `ws`.
pub open spec fn windows_decode_to(
    ws: Seq<Vec<RawPoint>>,
    require_title: bool,
    d: Seq<Vec<DecodedPoint>>,
) -> bool {
    &&& d.len() == ws.len()
    &&& forall|i: int|
        0 <= i < ws.len() ==> #[trigger] window_decodes_to(ws[i]@, require_title, d[i]@)
}

/// Decodes every window's records; any malformed record anywhere fails the
/// whole question.
pub fn decode_windows(windows: Vec<Vec<RawPoint>>, require_title: bool) -> (r: Result<
    Vec<Vec<DecodedPoint>>,
    PayloadError,
>)
    ensures
        match r {
            Ok(d) => windows_decode_to(windows@, require_title, d@),
            Err(e) => exists|i: int, j: int|
                0 <= i < windows@.len() && 0 <= j < windows@[i]@.len()
                    && #[trigger] point_fails_with(windows@[i]@[j], require_title, e),
        },
{
    let ghost orig = windows@;
    let mut rest = windows;
    let mut out: Vec<Vec<DecodedPoint>> = Vec::new();
    while rest.len() > 0
        invariant
            orig == windows@,
            out@.len() + rest@.len() == orig.len(),
            rest@ == orig.subrange(out@.len() as int, orig.len() as int),
            forall|i: int|
                0 <= i < out@.len() ==> #[trigger] window_decodes_to(
                    orig[i]@,
                    require_title,
                    out@[i]@,
                ),
        decreases rest@.len(),
    {
        let ghost k = out@.len() as int;
        let w = rest.remove(0);
        proof {
            assert(w == orig[k]);
            assert(rest@ =~= orig.subrange(k + 1, orig.len() as int));
        }
        match decode_window(w, require_title) {
            Ok(d) => {
                out.push(d);
            },
            Err(e) => {
                proof {
                    let j = choose|j: int|
                        0 <= j < w@.len() && #[trigger] point_fails_with(w@[j], require_title, e);
                    assert(point_fails_with(windows@[k]@[j], require_title, e));
                    assert(exists|i: int, j2: int|
                        0 <= i < windows@.len() && 0 <= j2 < windows@[i]@.len()
                            && #[trigger] point_fails_with(windows@[i]@[j2], require_title, e));
                }
                return Err(e);
            },
        }
    }
    Ok(out)
}

/// One context line: `Source [rank]: snippet` with a trailing newline.
pub open spec fn source_line(rank: nat, snippet: Seq<char>) -> Seq<char> {
    "Source ["@ + dec_rep(rank) + "]: "@ + snippet + "\n"@
}

/// The first `upto` context lines of one window's result list, ranks local
/// to the window and 1-based.
pub open spec fn window_lines(results: Seq<DecodedPoint>, upto: int) -> Seq<char>
    decreases upto,
{
    if upto <= 0 {
        Seq::empty()
    } else {
        window_lines(results, upto - 1) + source_line(upto as nat, results[upto - 1].snippet@)
    }
}

/// The context text over the first `upto` windows, in window order.
pub open spec fn context_lines(windows: Seq<Vec<DecodedPoint>>, upto: int) -> Seq<char>
    decreases upto,
{
    if upto <= 0 {
        Seq::empty()
    } else {
        context_lines(windows, upto - 1) + window_lines(
            windows[upto - 1]@,
            windows[upto - 1]@.len() as int,
        )
    }
}

/// One window's results tagged with their 1-based local ranks.
pub open spec fn ranked(results: Seq<DecodedPoint>) -> Seq<SearchResult> {
    Seq::new(
        results.len(),
        |j: int|
            SearchResult {
                rank: (j + 1) as usize,
                source_id: results[j].source_id,
                title: results[j].title,
                snippet: results[j].snippet,
            },
    )
}

/// The source descriptors of the first `upto` windows, in window order and
/// rank order, not deduplicated by source id.
pub open spec fn all_sources(windows: Seq<Vec<DecodedPoint>>, upto: int) -> Seq<SearchResult>
    decreases upto,
{
    if upto <= 0 {
        Seq::empty()
    } else {
        all_sources(windows, upto - 1) + ranked(windows[upto - 1]@)
    }
}

/// How many results the first `upto` windows hold together.
pub open spec fn result_count(windows: Seq<Vec<DecodedPoint>>, upto: int) -> int
    decreases upto,
{
    if upto <= 0 {
        0
    } else {
        result_count(windows, upto - 1) + windows[upto - 1]@.len()
    }
}

/// The assembler emits one source descriptor per result: over `upto` windows
/// the source list is exactly as long as all their result lists together.
pub proof fn lemma_all_sources_len(windows: Seq<Vec<DecodedPoint>>, upto: int)
    requires
        0 <= upto <= windows.len(),
    ensures
        all_sources(windows, upto).len() == result_count(windows, upto),
    decreases upto,
{
    if upto > 0 {
        lemma_all_sources_len(windows, upto - 1);
    }
}

/// Merges the per-window result lists into the numbered context block and
/// the parallel source list. Pure and total: malformed records were rejected
/// by decoding.
pub fn assemble(windows: &Vec<Vec<DecodedPoint>>) -> (r: AssembledContext)
    ensures
        r.context_text@ == context_lines(windows@, windows@.len() as int),
        r.sources@ == all_sources(windows@, windows@.len() as int),
{
    let mut text = String::new();
    let mut sources: Vec<SearchResult> = Vec::new();
    let mut i: usize = 0;
    while i < windows.len()
        invariant
            i <= windows@.len(),
            text@ == context_lines(windows@, i as int),
            sources@ == all_sources(windows@, i as int),
        decreases windows@.len() - i,
    {
        let w = &windows[i];
        let mut j: usize = 0;
        while j < w.len()
            invariant
                i < windows@.len(),
                w@ == windows@[i as int]@,
                j <= w@.len(),
                text@ == context_lines(windows@, i as int) + window_lines(w@, j as int),
                sources@ == all_sources(windows@, i as int) + ranked(w@).take(j as int),
            decreases w@.len() - j,
        {
            let rank = j + 1;
            text.append("Source [");
            let rank_text = dec_string(rank);
            text.append(rank_text.as_str());
            text.append("]: ");
            text.append(w[j].snippet.as_str());
            text.append("\n");
            sources.push(
                SearchResult {
                    rank,
                    source_id: w[j].source_id,
                    title: w[j].title.clone(),
                    snippet: w[j].snippet.clone(),
                },
            );
            proof {
                assert(text@ =~= context_lines(windows@, i as int) + window_lines(
                    w@,
                    j + 1 as int,
                ));
                assert(sources@.last() == ranked(w@)[j as int]);
                assert(sources@ =~= all_sources(windows@, i as int) + ranked(w@).take(j + 1 as int));
            }
            j = j + 1;
        }
        proof {
            assert(ranked(w@).take(w@.len() as int) =~= ranked(w@));
        }
        i = i + 1;
    }
    proof {
        assert(text@ == context_lines(windows@, windows@.len() as int));
    }
    AssembledContext { context_text: text, sources }
}

} // verus!
