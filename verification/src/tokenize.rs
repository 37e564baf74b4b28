//! The tokenizer boundary: the `tokenizers` crate turns text into token
//! strings; the chunker's verified logic then works on those plain values.

use vstd::prelude::*;

verus! {

#[verifier::external_type_specification]
#[verifier::external_body]
pub struct ExTokenizer(tokenizers::Tokenizer);

/// Relies on `tokenizers::Tokenizer::encode` (with special tokens added, as a
/// whole-text embedding input wants) and `Encoding::get_tokens`: the token
/// strings of the encoding, in order, or `None` where encoding fails. The
/// encoding keeps its ids and its token strings in parallel arrays, so the
/// length of this result is the encoding's token count. The result depends on
/// the tokenizer value, which is opaque here, so nothing is promised of it;
/// the chunker takes the tokens as an argument and is verified for every
/// value of them.
#[verifier::external_body]
pub(crate) fn tokenize(tokenizer: &tokenizers::Tokenizer, text: &str) -> Option<Vec<String>> {
    match tokenizer.encode(text, true) {
        Ok(encoding) => Some(encoding.get_tokens().to_vec()),
        Err(_) => None,
    }
}

} // verus!
