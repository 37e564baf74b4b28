//! One `ask` turn of a chat session.
//!
//! A turn runs chunker, embedding, search, assembly and generation in that
//! order. The remote calls (embedding, search, generation) are suspension
//! points performed by the surrounding server; everything decided between
//! them — window structure, payload decoding, context assembly, the prompt,
//! the response, and the continuation-state update — is here, stated over
//! the values those calls hand back. An error at any step aborts the turn
//! and leaves the session's continuation state unchanged.

use vstd::prelude::*;

use crate::chunk::ChunkError;
use crate::context::{PayloadError, SearchResult};
use crate::session::SessionStore;

verus! {

/// Why an `ask` turn failed.
#[derive(Clone, Copy, Debug, PartialEq, Eq, Structural)]
pub enum AskError {
    /// The chunker rejected the configuration or the tokenizer failed.
    Chunk(ChunkError),
    /// A search record's payload was malformed.
    Payload(PayloadError),
    /// The embedding backend failed or answered without an embedding.
    Embedding,
    /// The vector index backend failed.
    Search,
    /// The generation backend failed or answered malformed.
    Generation,
    /// No session with the given identifier exists.
    UnknownSession,
}

/// What the generation backend returns: the answer text and the opaque
/// continuation state for a later turn, threaded through and never
/// interpreted.
#[derive(Debug)]
pub struct GenerationReply {
    pub response: String,
    pub context: Vec<i64>,
}

/// The caller-visible outcome of a turn: the answer text and, for each cited
/// source in order, its local rank and its source identifier.
#[derive(Debug)]
pub struct ChatResponse {
    pub response: String,
    pub sources: Vec<(usize, u128)>,
}

/// The (rank, source id) pairs of `sources`, in order.
pub open spec fn source_pairs(sources: Seq<SearchResult>) -> Seq<(usize, u128)> {
    Seq::new(sources.len(), |i: int| (sources[i].rank, sources[i].source_id))
}

/// Builds the caller-visible response from the answer text and the assembled
/// source descriptors.
pub fn chat_response_of(answer: String, sources: &Vec<SearchResult>) -> (r: ChatResponse)
    ensures
        r.response == answer,
        r.sources@ == source_pairs(sources@),
{
    let mut pairs: Vec<(usize, u128)> = Vec::new();
    let mut i: usize = 0;
    while i < sources.len()
        invariant
            i <= sources@.len(),
            pairs@ == source_pairs(sources@).take(i as int),
        decreases sources@.len() - i,
    {
        pairs.push((sources[i].rank, sources[i].source_id));
        proof {
            assert(pairs@ =~= source_pairs(sources@).take(i + 1 as int));
        }
        i = i + 1;
    }
    proof {
        assert(source_pairs(sources@).take(sources@.len() as int) =~= source_pairs(sources@));
    }
    ChatResponse { response: answer, sources: pairs }
}

/// Ends a turn of session `id` against the store. A successful generation
/// outcome overwrites the session's continuation state with the reply's and
/// yields the response; a failed outcome, or an unknown session, leaves the
/// store exactly as it was.
pub fn finish_turn(
    store: &mut SessionStore,
    id: u128,
    outcome: Option<GenerationReply>,
    sources: &Vec<SearchResult>,
) -> (r: Result<ChatResponse, AskError>)
    requires
        old(store).wf(),
    ensures
        final(store).wf(),
        match r {
            Ok(resp) => {
                &&& outcome matches Some(reply) && resp.response == reply.response
                    && final(store)@[id].continuation == reply.context
                &&& old(store)@.contains_key(id)
                &&& final(store)@.contains_key(id)
                &&& final(store)@[id].id == id
                &&& final(store)@ == old(store)@.insert(id, final(store)@[id])
                &&& resp.sources@ == source_pairs(sources@)
            },
            Err(e) => {
                &&& final(store)@ == old(store)@
                &&& (e == AskError::Generation && outcome is None) || (outcome is Some && e
                    == AskError::UnknownSession && !old(store)@.contains_key(id))
            },
        },
{
    match outcome {
        None => Err(AskError::Generation),
        Some(reply) => {
            let GenerationReply { response, context } = reply;
            if store.set_continuation(id, context) {
                Ok(chat_response_of(response, sources))
            } else {
                Err(AskError::UnknownSession)
            }
        },
    }
}

} // verus!
