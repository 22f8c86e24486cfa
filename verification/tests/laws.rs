use pi_brain::documents::merge_update;
use pi_brain::domain::{Document, UpdateDocumentRequest};
use pi_brain::excerpt::extract_excerpt;
use pi_brain::hash::compute_content_hash;
use pi_brain::sql::{search_count_query, search_page_query};
use pi_brain::ui::{join_tags, parse_tags};

fn base() -> Document {
    Document {
        id: 11,
        title: "T0".to_string(),
        content: "C0".to_string(),
        content_hash: compute_content_hash("C0"),
        tags: vec!["t0".to_string()],
        metadata: None,
        created_at: "2026-01-01T00:00:00+00:00".to_string(),
        updated_at: "2026-01-01T00:00:00+00:00".to_string(),
    }
}

#[test]
fn two_updates_equal_their_combination() {
    let first = || UpdateDocumentRequest { title: Some("T1".to_string()), content: Some("C1".to_string()), tags: None, metadata: None };
    let second = || UpdateDocumentRequest { title: None, content: Some("C2".to_string()), tags: Some(vec!["t2".to_string()]), metadata: None };
    let combined = UpdateDocumentRequest { title: Some("T1".to_string()), content: Some("C2".to_string()), tags: Some(vec!["t2".to_string()]), metadata: None };
    let twice = merge_update(merge_update(base(), first(), "a".to_string()), second(), "b".to_string());
    let once = merge_update(base(), combined, "b".to_string());
    assert_eq!(twice.title, once.title);
    assert_eq!(twice.content, once.content);
    assert_eq!(twice.content_hash, once.content_hash);
    assert_eq!(twice.tags, once.tags);
    assert_eq!(twice.metadata, once.metadata);
    assert_eq!(twice.updated_at, once.updated_at);
    assert_eq!(twice.content_hash, compute_content_hash(&twice.content));
    assert_eq!(twice.id, 11);
}

#[test]
fn count_and_page_queries_share_their_filters() {
    let tags = vec!["x".to_string()];
    let count = search_count_query("hello", Some(&tags));
    let page = search_page_query("hello", Some(&tags), 5, 10);
    let count_sql = count.builder.sql().as_str().to_string();
    let page_sql = page.builder.sql().as_str().to_string();
    let filters = count_sql.strip_prefix("SELECT COUNT(*) FROM documents WHERE is_deleted = 0").unwrap();
    let rest = page_sql
        .strip_prefix("SELECT id, title, content, content_hash, tags, metadata, created_at, updated_at FROM documents WHERE is_deleted = 0")
        .unwrap();
    assert_eq!(rest, format!("{} ORDER BY updated_at DESC LIMIT ? OFFSET ?", filters));
}

#[test]
fn every_placeholder_is_bound() {
    let tags = vec!["x".to_string(), "y".to_string()];
    for (query, args) in [("hello", 3), ("", 2)] {
        let count = search_count_query(query, Some(&tags));
        let page = search_page_query(query, Some(&tags), 5, 10);
        let count_sql = count.builder.sql().as_str().to_string();
        let page_sql = page.builder.sql().as_str().to_string();
        assert_eq!(count_sql.matches('?').count(), args);
        assert_eq!(page_sql.matches('?').count(), args + 2);
    }
}

#[test]
fn excerpt_window_contains_the_match() {
    let content = format!("{}MATCH{}", "é".repeat(120), "ü".repeat(120));
    let e = extract_excerpt(&content, "match", 150);
    assert!(e.contains("MATCH"));
    assert!(e.starts_with("...") && e.ends_with("..."));
}

#[test]
fn tags_shown_in_the_form_read_back_unchanged() {
    let tags = vec!["one".to_string(), "two words".to_string(), "ünï".to_string()];
    assert_eq!(parse_tags(&join_tags(&tags)), tags);
}

#[test]
fn excerpt_window_stays_near_the_asked_length() {
    let content = format!("{}{}{}", "日本語".repeat(60), "key", "語".repeat(60));
    let e = extract_excerpt(&content, "key", 150);
    let window = e.trim_start_matches("...").trim_end_matches("...");
    assert!(window.len() <= 150 + 3 + 6);
    assert!(window.contains("key"));
}
