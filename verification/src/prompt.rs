//! Building the final generation prompt: the original question and the
//! assembled context, framed by a fixed German-language instruction that
//! directs the model to answer from the supplied sources and to cite them in
//! the numbered IEEE style.

use vstd::prelude::*;

verus! {

/// The full prompt handed to the generation backend for `question` with the
/// assembled `context_text`.
pub open spec fn prompt_text(question: Seq<char>, context_text: Seq<char>) -> Seq<char> {
    "Basierend auf folgenden Informationen, beantworte bitte diese Frage und verwende die Quellen aus dem Kontext. Benutze die IEEE-Zitierweise wenn du eine Quelle in der Antwort verwendest. Frage: "@
        + question + "\n\nKontext (Quellen):\n"@ + context_text
}

/// Builds the generation prompt from the question and the context block.
pub fn build_prompt(question: &str, context_text: &str) -> (r: String)
    ensures
        r@ == prompt_text(question@, context_text@),
{
    let mut s =
        "Basierend auf folgenden Informationen, beantworte bitte diese Frage und verwende die Quellen aus dem Kontext. Benutze die IEEE-Zitierweise wenn du eine Quelle in der Antwort verwendest. Frage: ".to_owned();
    s.append(question);
    s.append("\n\nKontext (Quellen):\n");
    s.append(context_text);
    proof {
        assert(s@ =~= prompt_text(question@, context_text@));
    }
    s
}

} // verus!
