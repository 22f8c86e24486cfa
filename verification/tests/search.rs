use pi_brain::domain::{Document, SearchRequest};
use pi_brain::excerpt::{excerpt_around, extract_excerpt, EXCERPT_LENGTH};
use pi_brain::search::{
    list_page, list_response, search_page, search_request_from_params, search_response,
    DEFAULT_LIST_LIMIT, DEFAULT_SEARCH_LIMIT,
};
use pi_brain::sql::{
    search_count_query, search_page_query, tag_pattern, DELETE_DOCUMENT_SQL, FIND_BY_HASH_SQL,
    GET_DOCUMENT_SQL, LAST_UPDATED_SQL,
};

fn doc(title: &str, content: &str, tags: &[&str]) -> Document {
    Document {
        id: 7,
        title: title.to_string(),
        content: content.to_string(),
        content_hash: pi_brain::hash::compute_content_hash(content),
        tags: tags.iter().map(|t| t.to_string()).collect(),
        metadata: None,
        created_at: "2026-07-01T12:00:00+00:00".to_string(),
        updated_at: "2026-07-01T12:00:00+00:00".to_string(),
    }
}

#[test]
fn search_returns_matching_documents() {
    let found = vec![doc(
        "Rust Programming",
        "Rust is a systems programming language focused on safety and performance.",
        &["rust"],
    )];
    let request = SearchRequest {
        query: "Rust".to_string(),
        tags: None,
        limit: Some(10),
        offset: Some(0),
    };
    assert_eq!(search_page(&request), (10, 0));
    let body = search_response(found, 1, 3, request.query);
    assert_eq!(body.query, "Rust");
    assert_eq!(body.search_time_ms, 3);
    assert_eq!(body.results.len(), 1);
    assert_eq!(body.results[0].document.title, "Rust Programming");
    assert!(!body.results[0].excerpt.is_empty());
    // Short content is its own excerpt.
    assert_eq!(
        body.results[0].excerpt,
        "Rust is a systems programming language focused on safety and performance."
    );
}

#[test]
fn search_with_empty_query_filters_by_tags() {
    let tags = vec!["rust".to_string()];
    let count = search_count_query("", Some(&tags));
    assert_eq!(
        count.builder.sql().as_str(),
        "SELECT COUNT(*) FROM documents WHERE is_deleted = 0 AND tags LIKE ?"
    );
    let page = search_page_query("", Some(&tags), 10, 0);
    assert_eq!(
        page.builder.sql().as_str(),
        "SELECT id, title, content, content_hash, tags, metadata, created_at, updated_at FROM documents WHERE is_deleted = 0 AND tags LIKE ? ORDER BY updated_at DESC LIMIT ? OFFSET ?"
    );
    assert_eq!(tag_pattern("rust"), "%\"rust\"%");
    let body = search_response(vec![doc("Backend Dev", "Building backend systems", &["backend", "rust"])], 1, 0, String::new());
    assert_eq!(body.query, "");
    assert_eq!(body.results.len(), 1);
    assert_eq!(body.results[0].document.title, "Backend Dev");
}

#[test]
fn search_get_endpoint_works() {
    let request = search_request_from_params(Some("test".to_string()), Some(10), None);
    assert_eq!(request.query, "test");
    assert!(request.tags.is_none());
    assert_eq!(search_page(&request), (10, 0));
    let body = search_response(Vec::new(), 0, 0, request.query);
    assert_eq!(body.query, "test");
    assert!(body.results.is_empty());
}

#[test]
fn list_documents_returns_paginated_results() {
    let (limit, offset) = list_page(Some(2), Some(0));
    let docs = vec![doc("Document 0", "Content for document 0", &["tag0"]), doc("Document 1", "Content for document 1", &["tag1"])];
    let body = list_response(docs, 5, limit, offset);
    assert_eq!(body.limit, 2);
    assert_eq!(body.offset, 0);
    assert_eq!(body.total, 5);
    assert_eq!(body.documents.len(), 2);
}

#[test]
fn page_defaults() {
    assert_eq!(list_page(None, None), (DEFAULT_LIST_LIMIT, 0));
    assert_eq!(list_page(None, None), (50, 0));
    let request = search_request_from_params(None, None, Some(4));
    assert_eq!(request.query, "");
    assert_eq!(search_page(&request), (DEFAULT_SEARCH_LIMIT, 4));
    assert_eq!(DEFAULT_SEARCH_LIMIT, 20);
}

#[test]
fn search_query_with_text_and_tags() {
    let tags = vec!["a".to_string(), "b".to_string()];
    let count = search_count_query("rust", Some(&tags));
    assert_eq!(
        count.builder.sql().as_str(),
        "SELECT COUNT(*) FROM documents WHERE is_deleted = 0 AND id IN (SELECT id FROM documents_fts WHERE documents_fts MATCH ?) AND tags LIKE ? AND tags LIKE ?"
    );
    let none = search_count_query("", None);
    assert_eq!(none.builder.sql().as_str(), "SELECT COUNT(*) FROM documents WHERE is_deleted = 0");
    let empty_tags: Vec<String> = Vec::new();
    let empty = search_count_query("", Some(&empty_tags));
    assert_eq!(empty.builder.sql().as_str(), "SELECT COUNT(*) FROM documents WHERE is_deleted = 0");
}

#[test]
fn excerpt_of_short_content_is_the_content() {
    assert_eq!(extract_excerpt("short text", "zzz", 150), "short text");
    let exact = "a".repeat(150);
    assert_eq!(extract_excerpt(&exact, "b", 150), exact);
}

#[test]
fn excerpt_centers_on_the_match() {
    let content = format!("{}needle{}", "x".repeat(200), "y".repeat(200));
    let e = extract_excerpt(&content, "NEEDLE", EXCERPT_LENGTH);
    assert_eq!(e, format!("...{}...", &content[125..281]));
    assert!(e.contains("needle"));
}

#[test]
fn excerpt_at_the_start_has_no_leading_dots() {
    let content = format!("needle{}", "y".repeat(300));
    let e = extract_excerpt(&content, "needle", 150);
    assert_eq!(e, format!("{}...", &content[0..81]));
}

#[test]
fn excerpt_at_the_end_has_no_trailing_dots() {
    let content = format!("{}needle", "x".repeat(300));
    let e = extract_excerpt(&content, "needle", 150);
    assert_eq!(e, format!("...{}", &content[225..306]));
}

#[test]
fn excerpt_without_match_takes_the_start() {
    let content = "z".repeat(200);
    assert_eq!(extract_excerpt(&content, "q", 150), format!("{}...", "z".repeat(150)));
}

#[test]
fn excerpt_keeps_multibyte_characters_whole() {
    let content = "é".repeat(100);
    assert_eq!(extract_excerpt(&content, "zz", 150), format!("{}...", "é".repeat(75)));
    assert_eq!(extract_excerpt(&content, "zz", 151), format!("{}...", "é".repeat(76)));
}

#[test]
fn excerpt_uses_positions_of_the_lowercased_text() {
    // 'İ' (2 bytes) lowercases to 3 bytes, so the match position in the
    // lowercased content lies past the same text in the original.
    let content = format!("{}abc{}", "İ".repeat(100), "x".repeat(100));
    let e = extract_excerpt(&content, "abc", 150);
    assert_eq!(e, format!("...{}", "x".repeat(78)));
}

#[test]
fn excerpt_around_takes_lowercased_texts() {
    let content = format!("{}Mid{}", "a".repeat(100), "b".repeat(100));
    let lower = content.to_lowercase();
    let e = excerpt_around(&content, "MID", &lower, "mid", 20);
    assert_eq!(e, format!("...{}...", &content[90..113]));
}

#[test]
fn delete_document_soft_deletes_then_hides_it() {
    // Deleting marks the row; every read keeps to rows not marked.
    assert!(DELETE_DOCUMENT_SQL.starts_with("UPDATE documents SET is_deleted = 1"));
    for read in [GET_DOCUMENT_SQL, FIND_BY_HASH_SQL, LAST_UPDATED_SQL] {
        assert!(read.contains("is_deleted = 0"));
    }
    let page = search_page_query("", None, 50, 0);
    assert!(page.builder.sql().as_str().contains("WHERE is_deleted = 0"));
}
