use pi_brain::client::ApiError;
use pi_brain::ui::{change_effect, ChangeEffect, DocumentAction};
use pi_brain::domain::{Document, DocumentListResponse, PiBrainStats, SearchResponse, SearchResult};
use pi_brain::ui::{
    close_modal, content_preview, delete_prompt, delete_shown_document, displayed_documents, documents_loaded,
    documents_loading, edit_shown_document, find_document, home_search_request, home_view, initial_documents_page, is_read_only,
    join_tags, modal_title, open_modal, parse_tags, render_markdown, reset_form, search_loaded,
    search_loading, search_submission, shown_document_id, stat_cards, stats_loaded, stats_loading,
    submit_form, updated_label, view_listed_document, DocumentForm, DocumentsState, FormSubmission,
    ModalState, ModalType, SearchState, StatsState,
};

fn doc(id: u128, title: &str, tags: &[&str]) -> Document {
    Document {
        id,
        title: title.to_string(),
        content: format!("content of {}", title),
        content_hash: String::new(),
        tags: tags.iter().map(|t| t.to_string()).collect(),
        metadata: Some("{\"k\":1}".to_string()),
        created_at: "2026-07-01T12:00:00+00:00".to_string(),
        updated_at: "2026-07-01T12:34:56+02:00".to_string(),
    }
}

fn stats() -> PiBrainStats {
    PiBrainStats {
        total_documents: 3,
        total_links: 0,
        unique_tags: 6,
        database_size_bytes: 5000,
        last_updated: "2026-07-01T12:00:00+00:00".to_string(),
    }
}

#[test]
fn modal_opens_and_closes() {
    let m = open_modal(ModalType::ViewDocument(5));
    assert!(m.is_open);
    assert!(matches!(m.modal_type, Some(ModalType::ViewDocument(5))));
    let c = close_modal();
    assert!(!c.is_open);
    assert!(c.modal_type.is_none());
    let d = ModalState::default();
    assert!(!d.is_open && d.modal_type.is_none());
    assert_eq!(modal_title(&Some(ModalType::CreateDocument)), "Create Document");
    assert_eq!(modal_title(&Some(ModalType::EditDocument(1))), "Edit Document");
    assert_eq!(modal_title(&Some(ModalType::ViewDocument(1))), "View Document");
    assert_eq!(modal_title(&None), "Document");
    assert!(is_read_only(&Some(ModalType::ViewDocument(1))));
    assert!(!is_read_only(&Some(ModalType::CreateDocument)));
}

#[test]
fn form_tags_are_trimmed_and_non_empty() {
    assert_eq!(parse_tags(" rust, web ,, ,x"), vec!["rust", "web", "x"]);
    assert!(parse_tags("").is_empty());
    assert!(parse_tags(" , ").is_empty());
}

#[test]
fn edit_form_round_trips_tags() {
    let d = doc(9, "Doc", &["alpha", "beta gamma", "δ"]);
    let form = reset_form(
        DocumentForm { title: String::new(), content: String::new(), tags: String::new() },
        &Some(ModalType::EditDocument(9)),
        &Some(d.duplicate()),
    );
    assert_eq!(form.title, "Doc");
    assert_eq!(form.tags, "alpha, beta gamma, δ");
    assert_eq!(join_tags(&d.tags), "alpha, beta gamma, δ");
    match submit_form(&Some(ModalType::EditDocument(9)), &form, &Some(d.duplicate())) {
        FormSubmission::Update(id, req) => {
            assert_eq!(id, 9);
            assert_eq!(req.title.as_deref(), Some("Doc"));
            assert_eq!(req.content.as_deref(), Some("content of Doc"));
            assert_eq!(req.tags, Some(d.tags.clone()));
            assert_eq!(req.metadata.as_deref(), Some("{\"k\":1}"));
        }
        _ => panic!("an update was expected"),
    }
}

#[test]
fn form_resets_for_other_modals() {
    let filled = || DocumentForm { title: "t".to_string(), content: "c".to_string(), tags: "g".to_string() };
    let cleared = reset_form(filled(), &Some(ModalType::CreateDocument), &None);
    assert!(cleared.title.is_empty() && cleared.content.is_empty() && cleared.tags.is_empty());
    let kept = reset_form(filled(), &Some(ModalType::EditDocument(1)), &None);
    assert_eq!(kept.title, "t");
    match submit_form(&Some(ModalType::CreateDocument), &filled(), &None) {
        FormSubmission::Create(req) => {
            assert_eq!(req.title, "t");
            assert_eq!(req.tags, vec!["g"]);
            assert!(req.metadata.is_none());
        }
        _ => panic!("a create was expected"),
    }
    assert!(matches!(submit_form(&Some(ModalType::ViewDocument(1)), &filled(), &None), FormSubmission::Ignore));
    assert!(matches!(submit_form(&None, &filled(), &None), FormSubmission::Ignore));
}

#[test]
fn loading_states() {
    let s = documents_loading(DocumentsState::default());
    assert!(s.loading && s.error.is_none());
    let page = DocumentListResponse { documents: vec![doc(1, "a", &[])], total: 7, limit: 50, offset: 0 };
    let done = documents_loaded(s, Ok(page));
    assert!(!done.loading);
    assert_eq!(done.total, 7);
    assert_eq!(done.documents.len(), 1);
    let failed = documents_loaded(done, Err(ApiError::Network("offline".to_string())));
    assert!(!failed.loading);
    assert_eq!(failed.total, 7);
    assert_eq!(failed.error.as_deref(), Some("Network error: offline"));

    let st = stats_loading(StatsState::default());
    assert!(st.loading);
    let st = stats_loaded(st, Ok(stats()));
    assert_eq!(st.stats.as_ref().map(|s| s.total_documents), Some(3));
    let st = stats_loaded(st, Err(ApiError::Parse("bad".to_string())));
    assert!(st.stats.is_some());
    assert_eq!(st.error.as_deref(), Some("Parse error: bad"));

    let sr = search_loading(SearchState::default());
    assert!(sr.loading);
    let response = SearchResponse { results: Vec::new(), total_count: 0, search_time_ms: 1, query: "q".to_string() };
    let sr = search_loaded(sr, Ok(response));
    assert!(!sr.loading);
    assert_eq!(sr.results.query, "q");
    let sr = search_loaded(sr, Err(ApiError::Http(502, "Bad Gateway".to_string())));
    assert_eq!(sr.error.as_deref(), Some("HTTP error: 502 Bad Gateway"));
}

#[test]
fn home_page_lists_search_results_when_there_are_some() {
    let docs = vec![doc(1, "a", &[]), doc(2, "b", &[])];
    let empty = SearchResponse { results: Vec::new(), total_count: 0, search_time_ms: 0, query: String::new() };
    assert_eq!(displayed_documents(&docs, &empty).len(), 2);
    let found = SearchResponse {
        results: vec![SearchResult { document: doc(3, "c", &[]), excerpt: String::new() }],
        total_count: 1,
        search_time_ms: 0,
        query: "c".to_string(),
    };
    let shown = displayed_documents(&docs, &found);
    assert_eq!(shown.len(), 1);
    assert_eq!(shown[0].title, "c");
    let request = home_search_request("rust".to_string());
    assert_eq!(request.limit, Some(50));
    assert_eq!(request.offset, Some(0));
    assert_eq!(initial_documents_page(), (50, 0));
    assert!(request.tags.is_none());
}

#[test]
fn home_page_buttons_and_notices() {
    let mut documents = DocumentsState::default();
    let mut search = SearchState::default();
    // Nothing listed, nothing loading: the empty-state card, no spinner.
    let v = home_view(&documents, &search);
    assert!(v.show_empty_state && !v.show_spinner && !v.show_clear_search);
    // While loading: the spinner, and no empty-state card.
    documents.loading = true;
    let v = home_view(&documents, &search);
    assert!(v.show_spinner && !v.show_empty_state);
    documents.loading = false;
    documents.documents = vec![doc(1, "a", &[])];
    let v = home_view(&documents, &search);
    assert!(!v.show_empty_state && !v.show_clear_search);
    // A search with results offers "Clear Search".
    search.results = SearchResponse {
        results: vec![SearchResult { document: doc(3, "c", &[]), excerpt: String::new() }],
        total_count: 1,
        search_time_ms: 0,
        query: "c".to_string(),
    };
    search.loading = true;
    let v = home_view(&documents, &search);
    assert!(v.show_clear_search && v.show_spinner && !v.show_empty_state);
}

#[test]
fn clicking_edit_and_delete() {
    let docs = vec![doc(1, "a", &[]), doc(2, "b", &[])];
    assert_eq!(find_document(&docs, 2).map(|d| d.title), Some("b".to_string()));
    assert!(find_document(&docs, 3).is_none());
    let (shown, modal) = view_listed_document(&docs, 1).unwrap();
    assert_eq!(shown.title, "a");
    assert!(matches!(modal.modal_type, Some(ModalType::ViewDocument(1))));
    assert!(view_listed_document(&docs, 9).is_none());
    let current = Some(doc(2, "b", &[]));
    assert!(matches!(edit_shown_document(&current).unwrap().modal_type, Some(ModalType::EditDocument(2))));
    assert!(edit_shown_document(&None).is_none());
    assert_eq!(delete_shown_document(&current, true), Some(2));
    assert_eq!(delete_shown_document(&current, false), None);
    assert_eq!(delete_shown_document(&None, true), None);
    assert_eq!(
        delete_prompt(&current).as_deref(),
        Some("Delete this document? This cannot be undone.")
    );
    assert_eq!(delete_prompt(&None), None);
    assert_eq!(shown_document_id(&current), Some(2));
}

#[test]
fn search_bar_ignores_blank_queries() {
    assert_eq!(search_submission("  rust "), Some("  rust ".to_string()));
    assert_eq!(search_submission(" \t "), None);
    assert_eq!(search_submission(""), None);
}

#[test]
fn list_entries_show_a_preview() {
    assert_eq!(content_preview("short"), "short");
    let long = "a".repeat(250);
    assert_eq!(content_preview(&long), format!("{}...", "a".repeat(200)));
    // 150 characters of two bytes: all shown, but more than 200 bytes.
    let wide = "é".repeat(150);
    assert_eq!(content_preview(&wide), format!("{}...", wide));
    assert_eq!(updated_label("2026-07-01T12:34:56+02:00"), "Updated: 2026-07-01 10:34");
}

#[test]
fn stats_cards() {
    let cards = stat_cards(&Some(stats()));
    assert_eq!(cards[0].value, "3");
    assert_eq!(cards[0].label, "Total Documents");
    assert_eq!(cards[1].value, "6");
    assert_eq!(cards[2].value, "4 KB");
    assert_eq!(cards[2].label, "Database Size");
    let negative = PiBrainStats { database_size_bytes: -5000, ..stats() };
    assert_eq!(stat_cards(&Some(negative))[2].value, "-4 KB");
    let empty = stat_cards(&None);
    assert!(empty.iter().all(|c| c.value == "-"));
}

#[test]
fn markdown_renders_tables_and_strikethrough() {
    assert_eq!(render_markdown("# Hi"), "<h1>Hi</h1>\n");
    assert_eq!(render_markdown("~~x~~"), "<p><del>x</del></p>\n");
    let table = render_markdown("|a|\n|-|\n|1|");
    assert!(table.contains("<table>"));
}

#[test]
fn failed_changes_are_reported() {
    assert!(matches!(change_effect(DocumentAction::Create, None), ChangeEffect::Reload));
    match change_effect(DocumentAction::Delete, Some(ApiError::Network("offline".to_string()))) {
        ChangeEffect::Report(m) => assert_eq!(m, "Failed to delete document: Network error: offline"),
        ChangeEffect::Reload => panic!("a report was expected"),
    }
}
