use rag_chat::context::{
    assemble, decode_point, decode_window, decode_windows, DecodedPoint, PayloadError, RawPoint,
};

const UUID_A: &str = "a1a2a3a4-b1b2-c1c2-d1d2-d3d4d5d6d7d8";
const UUID_A_VALUE: u128 = 0xa1a2a3a4b1b2c1c2d1d2d3d4d5d6d7d8;

fn point(id: u128, title: &str, snippet: &str) -> DecodedPoint {
    DecodedPoint { source_id: id, title: title.to_string(), snippet: snippet.to_string() }
}

#[test]
fn assembles_three_results_over_two_windows() {
    let windows = vec![
        vec![point(1, "DocA", "s1"), point(2, "DocB", "s2")],
        vec![point(3, "DocC", "s3")],
    ];
    let ctx = assemble(&windows);
    assert_eq!(ctx.context_text, "Source [1]: s1\nSource [2]: s2\nSource [1]: s3\n");
    assert_eq!(ctx.sources.len(), 3);
    let ranks: Vec<usize> = ctx.sources.iter().map(|s| s.rank).collect();
    let ids: Vec<u128> = ctx.sources.iter().map(|s| s.source_id).collect();
    assert_eq!(ranks, vec![1, 2, 1]);
    assert_eq!(ids, vec![1, 2, 3]);
    assert_eq!(ctx.sources[0].title, "DocA");
    assert_eq!(ctx.sources[2].snippet, "s3");
}

#[test]
fn assembles_nothing_from_no_windows() {
    let windows: Vec<Vec<DecodedPoint>> = Vec::new();
    let ctx = assemble(&windows);
    assert_eq!(ctx.context_text, "");
    assert!(ctx.sources.is_empty());
}

#[test]
fn ranks_restart_in_every_window() {
    let windows = vec![vec![point(7, "D", "x")], vec![point(8, "E", "y")]];
    let ctx = assemble(&windows);
    let ranks: Vec<usize> = ctx.sources.iter().map(|s| s.rank).collect();
    assert_eq!(ranks, vec![1, 1]);
    assert_eq!(ctx.context_text, "Source [1]: x\nSource [1]: y\n");
}

fn raw(id: Option<&str>, text: Option<&str>, title: Option<&str>) -> RawPoint {
    RawPoint {
        source_id: id.map(|s| s.to_string()),
        text: text.map(|s| s.to_string()),
        title: title.map(|s| s.to_string()),
    }
}

#[test]
fn decodes_a_full_payload() {
    let d = decode_point(raw(Some(UUID_A), Some("X is Y"), Some("Doc")), true).unwrap();
    assert_eq!(d.source_id, UUID_A_VALUE);
    assert_eq!(d.snippet, "X is Y");
    assert_eq!(d.title, "Doc");
}

#[test]
fn missing_source_id_is_rejected() {
    let e = decode_point(raw(None, Some("t"), Some("d")), true).unwrap_err();
    assert_eq!(e, PayloadError::MissingSourceId);
}

#[test]
fn malformed_source_id_is_rejected() {
    let e = decode_point(raw(Some("not-a-uuid"), Some("t"), Some("d")), true).unwrap_err();
    assert_eq!(e, PayloadError::InvalidSourceId);
}

#[test]
fn missing_text_is_rejected() {
    let e = decode_point(raw(Some(UUID_A), None, Some("d")), true).unwrap_err();
    assert_eq!(e, PayloadError::MissingText);
}

#[test]
fn missing_title_is_rejected_only_where_required() {
    let e = decode_point(raw(Some(UUID_A), Some("t"), None), true).unwrap_err();
    assert_eq!(e, PayloadError::MissingTitle);
    let d = decode_point(raw(Some(UUID_A), Some("t"), None), false).unwrap();
    assert_eq!(d.title, "");
    assert_eq!(d.snippet, "t");
}

#[test]
fn decode_window_keeps_order() {
    let d = decode_window(
        vec![raw(Some(UUID_A), Some("a"), None), raw(Some(UUID_A), Some("b"), None)],
        false,
    )
    .unwrap();
    assert_eq!(d.len(), 2);
    assert_eq!(d[0].snippet, "a");
    assert_eq!(d[1].snippet, "b");
}

#[test]
fn any_malformed_record_fails_the_whole_question() {
    let windows = vec![
        vec![raw(Some(UUID_A), Some("fine"), Some("d"))],
        vec![raw(Some(UUID_A), None, Some("d"))],
    ];
    let e = decode_windows(windows, true).unwrap_err();
    assert_eq!(e, PayloadError::MissingText);
}
