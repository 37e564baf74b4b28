use rag_chat::decimal::dec_string;
use rag_chat::prompt::build_prompt;
use rag_chat::registration::{register_url, unregister_url};

#[test]
fn decimal_numerals() {
    assert_eq!(dec_string(0), "0");
    assert_eq!(dec_string(9), "9");
    assert_eq!(dec_string(10), "10");
    assert_eq!(dec_string(456), "456");
    assert_eq!(dec_string(100900), "100900");
}

#[test]
fn prompt_embeds_question_and_context() {
    let p = build_prompt("Was ist X?", "Source [1]: X is Y\n");
    assert_eq!(
        p,
        "Basierend auf folgenden Informationen, beantworte bitte diese Frage und verwende die \
         Quellen aus dem Kontext. Benutze die IEEE-Zitierweise wenn du eine Quelle in der \
         Antwort verwendest. Frage: Was ist X?\n\nKontext (Quellen):\nSource [1]: X is Y\n"
    );
}

#[test]
fn registration_endpoints() {
    assert_eq!(register_url("http://backend:3000"), "http://backend:3000/modules/output/register");
    assert_eq!(
        unregister_url("http://backend:3000"),
        "http://backend:3000/modules/output/unregister"
    );
}
