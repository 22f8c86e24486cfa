use pi_brain::stats::{assemble_stats, get_stats};

#[test]
fn get_stats_returns_initial_zero_state() {
    let body = get_stats(0, 0, 4096, Some(None)).ok().unwrap();
    assert_eq!(body.total_documents, 0);
    assert_eq!(body.total_links, 0);
    assert!(body.unique_tags >= 0);
    assert!(body.database_size_bytes >= 0);
    assert!(!body.last_updated.is_empty());
    assert!(chrono::DateTime::parse_from_rfc3339(&body.last_updated).is_ok());
}

#[test]
fn get_stats_counts_documents_correctly() {
    let body = get_stats(3, 0, 12288, Some(Some("2026-07-01T12:00:00+00:00".to_string()))).ok().unwrap();
    assert_eq!(body.total_documents, 3);
    assert!(body.database_size_bytes > 0);
    assert_eq!(body.last_updated, "2026-07-01T12:00:00+00:00");
}

#[test]
fn unique_tags_are_estimated_as_two_per_document() {
    let s = assemble_stats(21, 4, 100, None, "2026-01-01T00:00:00+00:00".to_string());
    assert_eq!(s.unique_tags, 42);
    assert_eq!(s.total_links, 4);
    assert_eq!(s.last_updated, "2026-01-01T00:00:00+00:00");
}

#[test]
fn unreadable_last_update_falls_back_to_now() {
    let s = assemble_stats(1, 0, 0, Some(Some("garbage".to_string())), "NOW".to_string());
    assert_eq!(s.last_updated, "NOW");
    let t = assemble_stats(1, 0, 0, Some(None), "NOW".to_string());
    assert_eq!(t.last_updated, "NOW");
}
