use pi_brain::documents::{
    create_document, document_from_row, document_row_of, merge_update, parse_document_id,
    resolve_create, update_document, CreateOutcome, DocumentRow,
};
use pi_brain::domain::{CreateDocumentRequest, Document, UpdateDocumentRequest};
use pi_brain::error::{e500, DatabaseError, RouteError};
use pi_brain::hash::compute_content_hash;
use pi_brain::ids::uuid_to_string;

const STAMP: &str = "2026-07-01T12:00:00+00:00";

fn strings(v: &[&str]) -> Vec<String> {
    v.iter().map(|s| s.to_string()).collect()
}

fn created(request: CreateDocumentRequest) -> Document {
    match create_document(request, None) {
        Ok(CreateOutcome::Created(d)) => d,
        _ => panic!("a new document was expected"),
    }
}

#[test]
fn create_document_returns_200_with_document() {
    let request = CreateDocumentRequest {
        title: "Test Document".to_string(),
        content: "This is test content for the knowledge base.".to_string(),
        tags: strings(&["test", "sample"]),
        metadata: Some(r#"{"author":"test_user","version":1}"#.to_string()),
    };
    let doc = created(request);
    assert_eq!(doc.title, "Test Document");
    assert_eq!(doc.content, "This is test content for the knowledge base.");
    assert_eq!(doc.tags[0], "test");
    assert_eq!(doc.tags[1], "sample");
    assert_eq!(
        doc.metadata.as_deref(),
        Some(r#"{"author":"test_user","version":1}"#)
    );
    assert_eq!(
        doc.content_hash,
        compute_content_hash("This is test content for the knowledge base.")
    );
    assert_eq!(doc.created_at, doc.updated_at);
    // A random (version 4) id.
    assert_eq!((doc.id >> 76) & 0xf, 4);
    // The stored row reads back as the same document.
    let back = document_from_row(document_row_of(&doc)).ok().unwrap();
    assert_eq!(back.id, doc.id);
    assert_eq!(back.title, doc.title);
    assert_eq!(back.content, doc.content);
}

#[test]
fn create_document_deduplicates_content() {
    let first = created(CreateDocumentRequest {
        title: "Document 1".to_string(),
        content: "Same content for deduplication test".to_string(),
        tags: strings(&["original"]),
        metadata: None,
    });
    let second = CreateDocumentRequest {
        title: "Document 2".to_string(),
        content: "Same content for deduplication test".to_string(),
        tags: strings(&["duplicate"]),
        metadata: None,
    };
    let hash = compute_content_hash(&second.content);
    // The lookup by hash finds the first document.
    assert_eq!(hash, first.content_hash);
    match create_document(second, Some(document_row_of(&first))) {
        Ok(CreateOutcome::Existing(d)) => {
            assert_eq!(d.id, first.id);
            assert_eq!(d.title, "Document 1");
        }
        _ => panic!("the existing document was expected"),
    }
}

#[test]
fn get_document_returns_document_for_valid_id() {
    let doc = created(CreateDocumentRequest {
        title: "Retrieve Test".to_string(),
        content: "Content to be retrieved".to_string(),
        tags: strings(&["retrieve"]),
        metadata: None,
    });
    let id_text = uuid_to_string(doc.id);
    let id = match parse_document_id(&id_text) {
        Ok(v) => v,
        Err(_) => panic!("the id should parse"),
    };
    assert_eq!(id, doc.id);
    let read = document_from_row(document_row_of(&doc)).ok().unwrap();
    assert_eq!(uuid_to_string(read.id), id_text);
    assert_eq!(read.title, "Retrieve Test");
}

#[test]
fn get_document_returns_500_for_nonexistent_id() {
    let missing = uuid_to_string(0x1234_5678_9abc_4def_8123_4567_89ab_cdef);
    let err = e500(DatabaseError::NotFound(missing.clone()));
    assert_eq!(err.status_code(), 500);
    match err {
        RouteError::Internal(m) => assert_eq!(m, format!("record not found: {}", missing)),
        RouteError::BadRequest(_) => panic!("a server error was expected"),
    }
}

#[test]
fn update_document_applies_partial_changes() {
    let doc = created(CreateDocumentRequest {
        title: "Original Title".to_string(),
        content: "Original content".to_string(),
        tags: strings(&["original"]),
        metadata: None,
    });
    let update = UpdateDocumentRequest {
        title: Some("Updated Title".to_string()),
        content: None,
        tags: Some(strings(&["updated"])),
        metadata: Some(r#"{"version":2}"#.to_string()),
    };
    let body = update_document(doc, update).ok().unwrap();
    assert_eq!(body.title, "Updated Title");
    assert_eq!(body.content, "Original content");
    assert_eq!(body.tags[0], "updated");
    assert_eq!(body.metadata.as_deref(), Some(r#"{"version":2}"#));
}

#[test]
fn malformed_id_is_a_bad_request() {
    match parse_document_id("not-a-uuid") {
        Err(RouteError::BadRequest(m)) => {
            assert_eq!(m, uuid::Uuid::parse_str("not-a-uuid").unwrap_err().to_string());
            assert!(!m.is_empty());
        }
        _ => panic!("a bad request was expected"),
    }
    let e = parse_document_id("zz").err().unwrap();
    assert_eq!(e.status_code(), 400);
}

#[test]
fn ids_parse_in_every_uuid_form() {
    let v: u128 = 0x67e5_5044_10b1_426f_9247_bb68_0e5f_e0c8;
    assert_eq!(uuid_to_string(v), "67e55044-10b1-426f-9247-bb680e5fe0c8");
    for text in [
        "67e55044-10b1-426f-9247-bb680e5fe0c8",
        "67E55044-10B1-426F-9247-BB680E5FE0C8",
        "67e5504410b1426f9247bb680e5fe0c8",
        "{67e55044-10b1-426f-9247-bb680e5fe0c8}",
        "urn:uuid:67e55044-10b1-426f-9247-bb680e5fe0c8",
    ] {
        assert_eq!(parse_document_id(text).ok(), Some(v));
    }
}

#[test]
fn update_with_new_content_rehashes_it() {
    let doc = created(CreateDocumentRequest {
        title: "T".to_string(),
        content: "before".to_string(),
        tags: vec![],
        metadata: Some("{}".to_string()),
    });
    let id = doc.id;
    let created_at = doc.created_at.clone();
    let merged = merge_update(
        doc,
        UpdateDocumentRequest { title: None, content: Some("after".to_string()), tags: None, metadata: None },
        STAMP.to_string(),
    );
    assert_eq!(merged.content, "after");
    assert_eq!(merged.content_hash, compute_content_hash("after"));
    assert_eq!(merged.title, "T");
    assert_eq!(merged.metadata.as_deref(), Some("{}"));
    assert_eq!(merged.id, id);
    assert_eq!(merged.created_at, created_at);
    assert_eq!(merged.updated_at, STAMP);
}

#[test]
fn empty_update_changes_only_the_update_time() {
    let doc = created(CreateDocumentRequest {
        title: "Keep".to_string(),
        content: "kept".to_string(),
        tags: strings(&["a", "b"]),
        metadata: None,
    });
    let before = doc.duplicate();
    let merged = merge_update(
        doc,
        UpdateDocumentRequest { title: None, content: None, tags: None, metadata: None },
        STAMP.to_string(),
    );
    assert_eq!(merged.title, before.title);
    assert_eq!(merged.content, before.content);
    assert_eq!(merged.content_hash, before.content_hash);
    assert_eq!(merged.tags, before.tags);
    assert_eq!(merged.metadata, before.metadata);
    assert_eq!(merged.updated_at, STAMP);
}

#[test]
fn resolve_create_builds_the_new_document() {
    let request = CreateDocumentRequest {
        title: "New".to_string(),
        content: "fresh".to_string(),
        tags: strings(&["x"]),
        metadata: None,
    };
    let hash = compute_content_hash("fresh");
    match resolve_create(request, None, 42, STAMP.to_string()) {
        Ok(CreateOutcome::Created(d)) => {
            assert_eq!(d.id, 42);
            assert_eq!(d.content_hash, hash);
            assert_eq!(d.created_at, STAMP);
            assert_eq!(d.updated_at, STAMP);
        }
        _ => panic!("a new document was expected"),
    }
}

#[test]
fn unreadable_existing_row_is_a_server_error() {
    let request = CreateDocumentRequest {
        title: "t".to_string(),
        content: "c".to_string(),
        tags: vec![],
        metadata: None,
    };
    let row = DocumentRow {
        id: "not a uuid".to_string(),
        title: "t".to_string(),
        content: "c".to_string(),
        content_hash: compute_content_hash("c"),
        tags: "[]".to_string(),
        metadata: None,
        created_at: STAMP.to_string(),
        updated_at: STAMP.to_string(),
    };
    let request_again = CreateDocumentRequest {
        title: "t".to_string(),
        content: "c".to_string(),
        tags: vec![],
        metadata: None,
    };
    let bad_tags = DocumentRow {
        id: "67e55044-10b1-426f-9247-bb680e5fe0c8".to_string(),
        tags: "not a list".to_string(),
        ..clone_row(&row)
    };
    match resolve_create(request, Some(row), 1, STAMP.to_string()) {
        Err(RouteError::Internal(m)) => assert_eq!(m, "Failed to parse existing document id."),
        _ => panic!("a server error was expected"),
    }
    match create_document(request_again, Some(bad_tags)) {
        Err(RouteError::Internal(m)) => assert_eq!(m, "Failed to map the document."),
        _ => panic!("a server error was expected"),
    }
}

#[test]
fn stored_row_reads_back_as_the_document() {
    let doc = Document {
        id: 0x67e5_5044_10b1_426f_9247_bb68_0e5f_e0c8,
        title: "Title".to_string(),
        content: "Body with \"quotes\" and, commas".to_string(),
        content_hash: compute_content_hash("Body with \"quotes\" and, commas"),
        tags: strings(&["a \"b\"", "c,d", ""]),
        metadata: Some(r#"{"k":[1,2]}"#.to_string()),
        created_at: STAMP.to_string(),
        updated_at: "2026-07-02T08:30:15.250+00:00".to_string(),
    };
    let row = document_row_of(&doc);
    assert_eq!(row.id, "67e55044-10b1-426f-9247-bb680e5fe0c8");
    assert_eq!(row.tags, serde_json::to_string(&doc.tags).unwrap());
    let back = document_from_row(row).ok().unwrap();
    assert_eq!(back.id, doc.id);
    assert_eq!(back.title, doc.title);
    assert_eq!(back.content, doc.content);
    assert_eq!(back.content_hash, doc.content_hash);
    assert_eq!(back.tags, doc.tags);
    assert_eq!(back.metadata, doc.metadata);
    assert_eq!(back.created_at, doc.created_at);
    assert_eq!(back.updated_at, doc.updated_at);
}

#[test]
fn created_and_updated_documents_read_back() {
    let doc = created(CreateDocumentRequest {
        title: "Round trip".to_string(),
        content: "stored and read".to_string(),
        tags: strings(&["x"]),
        metadata: Some(r#"{"a":1}"#.to_string()),
    });
    let back = document_from_row(document_row_of(&doc)).ok().unwrap();
    assert_eq!(back.id, doc.id);
    assert_eq!(back.created_at, doc.created_at);
    assert_eq!(back.metadata, doc.metadata);
    let updated = update_document(
        back,
        UpdateDocumentRequest { title: None, content: Some("changed".to_string()), tags: None, metadata: None },
    )
    .ok()
    .unwrap();
    assert!(pi_brain::clock::is_rfc3339(&updated.updated_at));
    let again = document_from_row(document_row_of(&updated)).ok().unwrap();
    assert_eq!(again.content, "changed");
    assert_eq!(again.content_hash, compute_content_hash("changed"));
    assert_eq!(again.created_at, doc.created_at);
    assert_eq!(again.updated_at, updated.updated_at);
}

#[test]
fn rows_with_bad_columns_do_not_map() {
    let good = DocumentRow {
        id: "67e55044-10b1-426f-9247-bb680e5fe0c8".to_string(),
        title: "t".to_string(),
        content: "c".to_string(),
        content_hash: "h".to_string(),
        tags: r#"["a","b"]"#.to_string(),
        metadata: Some("not json".to_string()),
        created_at: STAMP.to_string(),
        updated_at: STAMP.to_string(),
    };
    let doc = document_from_row(DocumentRow { ..clone_row(&good) }).ok().unwrap();
    assert_eq!(doc.tags, strings(&["a", "b"]));
    // Metadata that is not JSON is dropped.
    assert_eq!(doc.metadata, None);
    let bad_tags = DocumentRow { tags: "a,b".to_string(), ..clone_row(&good) };
    let bad_time = DocumentRow { created_at: "yesterday".to_string(), ..clone_row(&good) };
    for row in [bad_tags, bad_time] {
        match document_from_row(row) {
            Err(DatabaseError::Operation(m)) => assert_eq!(m, "Failed to map the document."),
            _ => panic!("the row should not map"),
        }
    }
}

fn clone_row(r: &DocumentRow) -> DocumentRow {
    DocumentRow {
        id: r.id.clone(),
        title: r.title.clone(),
        content: r.content.clone(),
        content_hash: r.content_hash.clone(),
        tags: r.tags.clone(),
        metadata: r.metadata.clone(),
        created_at: r.created_at.clone(),
        updated_at: r.updated_at.clone(),
    }
}

#[test]
fn database_error_messages() {
    assert_eq!(DatabaseError::NotFound("abc".to_string()).message(), "record not found: abc");
    assert_eq!(DatabaseError::Operation("Failed to count documents.".to_string()).message(), "Failed to count documents.");
}

#[test]
fn deleting_a_missing_document_is_not_found() {
    assert!(pi_brain::documents::delete_outcome(1, 7).is_ok());
    match pi_brain::documents::delete_outcome(0, 7) {
        Err(DatabaseError::NotFound(t)) => assert_eq!(t, uuid_to_string(7)),
        _ => panic!("not found was expected"),
    }
}
