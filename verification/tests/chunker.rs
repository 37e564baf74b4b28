use rag_chat::chunk::{chunk_tokens, ChunkError, DEFAULT_CHUNK_OVERLAP, DEFAULT_CHUNK_SIZE};

fn token_vec(n: usize) -> Vec<String> {
    let mut v = Vec::new();
    for i in 0..n {
        v.push(format!("t{}", i));
    }
    v
}

#[test]
fn short_text_yields_one_verbatim_window() {
    let text = "hello world";
    let tokens = vec!["hello".to_string(), " world".to_string()];
    let windows = chunk_tokens(text, &tokens, DEFAULT_CHUNK_SIZE, DEFAULT_CHUNK_OVERLAP).unwrap();
    assert_eq!(windows.len(), 1);
    assert_eq!(windows[0].text, "hello world");
    assert_eq!(windows[0].start_token_index, 0);
    assert_eq!(windows[0].end_token_index, 2);
}

#[test]
fn boundary_text_of_chunk_size_tokens_stays_one_window() {
    let tokens = token_vec(512);
    let windows = chunk_tokens("whole text", &tokens, 512, 56).unwrap();
    assert_eq!(windows.len(), 1);
    assert_eq!(windows[0].text, "whole text");
    assert_eq!(windows[0].end_token_index, 512);
}

#[test]
fn thousand_tokens_slide_by_456() {
    let tokens = token_vec(1000);
    let windows = chunk_tokens("long text", &tokens, 512, 56).unwrap();
    assert_eq!(windows.len(), 3);
    let starts: Vec<usize> = windows.iter().map(|w| w.start_token_index).collect();
    let ends: Vec<usize> = windows.iter().map(|w| w.end_token_index).collect();
    assert_eq!(starts, vec![0, 456, 912]);
    assert_eq!(ends, vec![512, 968, 1000]);
    for w in &windows {
        assert_eq!(w.text, tokens[w.start_token_index..w.end_token_index].concat());
    }
    // every two consecutive windows share exactly 56 token indices
    for i in 0..windows.len() - 1 {
        assert_eq!(windows[i].end_token_index - windows[i + 1].start_token_index, 56);
    }
}

#[test]
fn truncated_tail_windows() {
    let tokens = token_vec(10);
    let windows = chunk_tokens("long text", &tokens, 8, 4).unwrap();
    let starts: Vec<usize> = windows.iter().map(|w| w.start_token_index).collect();
    let ends: Vec<usize> = windows.iter().map(|w| w.end_token_index).collect();
    assert_eq!(starts, vec![0, 4, 8]);
    assert_eq!(ends, vec![8, 10, 10]);
    for w in &windows {
        assert_eq!(w.text, tokens[w.start_token_index..w.end_token_index].concat());
    }
}

#[test]
fn rejects_overlap_equal_to_chunk_size() {
    let tokens = token_vec(4);
    let r = chunk_tokens("text", &tokens, 8, 8);
    assert_eq!(r.unwrap_err(), ChunkError::NonProgressingOverlap);
}

#[test]
fn rejects_overlap_above_chunk_size() {
    let tokens = token_vec(4);
    let r = chunk_tokens("text", &tokens, 8, 9);
    assert_eq!(r.unwrap_err(), ChunkError::NonProgressingOverlap);
}
