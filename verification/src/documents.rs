//! What the document routes decide: the row a document is stored as and how
//! a stored row becomes a document again, how a document is created (or
//! deduplicated), how a partial update is merged.
use crate::clock::{is_rfc3339, now_rfc3339, rfc3339_valid};
use crate::domain::{
    copy_opt_string, opt_string_view, strings_view, CreateDocumentRequest, Document, DocumentView,
    UpdateDocumentRequest,
};
use crate::error::{e500, DatabaseError, RouteError};
use crate::hash::{compute_content_hash, content_hash_of};
use crate::ids::{
    new_uuid_v4, parse_uuid, uuid_of_text, uuid_parse_of, uuid_text, uuid_to_string, uuid_variant,
    uuid_version,
};
use crate::json::{is_json, json_of_strings, json_valid, strings_from_json, strings_of_json, strings_to_json};
use vstd::prelude::*;

verus! {

/// A document row as read from the `documents` table, every column as text.
pub struct DocumentRow {
    pub id: String,
    pub title: String,
    pub content: String,
    pub content_hash: String,
    /// JSON list of the tags.
    pub tags: String,
    /// JSON text of the metadata, if any.
    pub metadata: Option<String>,
    pub created_at: String,
    pub updated_at: String,
}

/// The message of the error raised when a row cannot be read as a document.
pub open spec fn map_failed_text() -> Seq<char> {
    "Failed to map the document."@
}

/// The message of the error raised when a duplicate's stored id is not a UUID.
pub open spec fn id_parse_failed_text() -> Seq<char> {
    "Failed to parse existing document id."@
}

/// The message of the error raised when no random id can be drawn.
pub open spec fn id_failed_text() -> Seq<char> {
    "Failed to generate a document id."@
}

/// The message of the error raised when the clock cannot be read.
pub open spec fn clock_failed_text() -> Seq<char> {
    "Failed to read the clock."@
}

/// Metadata whose text is not JSON is dropped.
pub open spec fn row_metadata(m: Option<String>) -> Option<Seq<char>> {
    match m {
        Some(t) => if json_valid(t@) {
            Some(t@)
        } else {
            None
        },
        None => None,
    }
}

/// The document a row holds: `None` when its id is not a UUID, its tags are
/// not a JSON list of strings, or a timestamp is not RFC 3339.
pub open spec fn row_document(row: DocumentRow) -> Option<DocumentView> {
    match uuid_of_text(row.id@) {
        Some(id) => match strings_of_json(row.tags@) {
            Some(tags) => if rfc3339_valid(row.created_at@) && rfc3339_valid(row.updated_at@) {
                Some(
                    DocumentView {
                        id,
                        title: row.title@,
                        content: row.content@,
                        content_hash: row.content_hash@,
                        tags,
                        metadata: row_metadata(row.metadata),
                        created_at: row.created_at@,
                        updated_at: row.updated_at@,
                    },
                )
            } else {
                None
            },
            None => None,
        },
        None => None,
    }
}

pub open spec fn is_map_failure(e: DatabaseError) -> bool {
    e matches DatabaseError::Operation(m) && m@ == map_failed_text()
}

/// Reads a row of the `documents` table as a document.
pub fn document_from_row(row: DocumentRow) -> (r: Result<Document, DatabaseError>)
    ensures
        match r {
            Ok(d) => row_document(row) == Some(d@) && document_readable(d@),
            Err(e) => row_document(row) is None && is_map_failure(e),
        },
{
    let ghost given = row;
    let DocumentRow { id, title, content, content_hash, tags, metadata, created_at, updated_at } =
        row;
    let tags = match strings_from_json(tags.as_str()) {
        Some(t) => t,
        None => return Err(map_failed()),
    };
    let metadata = match metadata {
        Some(m) => if is_json(m.as_str()) {
            Some(m)
        } else {
            None
        },
        None => None,
    };
    if !is_rfc3339(created_at.as_str()) || !is_rfc3339(updated_at.as_str()) {
        return Err(map_failed());
    }
    let id = match parse_uuid(id.as_str()) {
        Ok(v) => v,
        Err(_) => return Err(map_failed()),
    };
    let d = Document { id, title, content, content_hash, tags, metadata, created_at, updated_at };
    proof {
        assert(row_document(given) == Some(d@));
    }
    Ok(d)
}

fn map_failed() -> (e: DatabaseError)
    ensures
        is_map_failure(e),
{
    let mut m = String::new();
    m.append("Failed to map the document.");
    DatabaseError::Operation(m)
}

/// Parses the id segment of a document path. A text that is not a UUID is a
/// malformed request (HTTP 400), answered with the parser's message.
pub fn parse_document_id(text: &str) -> (r: Result<u128, RouteError>)
    ensures
        match uuid_parse_of(text@) {
            Ok(v) => r == Ok::<u128, RouteError>(v),
            Err(m) => r matches Err(RouteError::BadRequest(e)) && e@ == m,
        },
        forall|v: u128| text@ == uuid_text(v) ==> r == Ok::<u128, RouteError>(v),
{
    match parse_uuid(text) {
        Ok(v) => Ok(v),
        Err(m) => Err(RouteError::BadRequest(m)),
    }
}

/// The outcome of a soft delete, given the number of rows it marked: none
/// means no live document has the id, which is answered as not found.
pub fn delete_outcome(rows_affected: u64, id: u128) -> (r: Result<(), DatabaseError>)
    ensures
        match r {
            Ok(()) => rows_affected > 0,
            Err(e) => rows_affected == 0 && (e matches DatabaseError::NotFound(t) && t@ == uuid_text(id)),
        },
{
    if rows_affected == 0 {
        Err(DatabaseError::NotFound(uuid_to_string(id)))
    } else {
        Ok(())
    }
}

/// A document that reads back from its stored row: RFC 3339 timestamps and,
/// when it carries metadata, a JSON text.
pub open spec fn document_readable(d: DocumentView) -> bool {
    &&& rfc3339_valid(d.created_at)
    &&& rfc3339_valid(d.updated_at)
    &&& (d.metadata matches Some(m) ==> json_valid(m))
}

/// The row a document is stored as: the id as hyphenated UUID text, the tags
/// as a JSON list, every other column as it is. A readable document reads
/// back from it as itself.
pub fn document_row_of(d: &Document) -> (r: DocumentRow)
    ensures
        r.id@ == uuid_text(d.id),
        r.title@ == d.title@,
        r.content@ == d.content@,
        r.content_hash@ == d.content_hash@,
        r.tags@ == json_of_strings(strings_view(d.tags@)),
        opt_string_view(r.metadata) == opt_string_view(d.metadata),
        r.created_at@ == d.created_at@,
        r.updated_at@ == d.updated_at@,
        document_readable(d@) ==> row_document(r) == Some(d@),
{
    let r = DocumentRow {
        id: uuid_to_string(d.id),
        title: d.title.clone(),
        content: d.content.clone(),
        content_hash: d.content_hash.clone(),
        tags: strings_to_json(d.tags.as_slice()),
        metadata: copy_opt_string(&d.metadata),
        created_at: d.created_at.clone(),
        updated_at: d.updated_at.clone(),
    };
    proof {
        if document_readable(d@) {
            assert(row_metadata(r.metadata) == d@.metadata);
            assert(row_document(r) == Some(d@));
        }
    }
    r
}

/// The document a create request makes, given its content hash, its id and
/// the time of creation.
pub open spec fn created_view(
    request: CreateDocumentRequest,
    content_hash: Seq<char>,
    id: u128,
    now: Seq<char>,
) -> DocumentView {
    DocumentView {
        id,
        title: request.title@,
        content: request.content@,
        content_hash,
        tags: strings_view(request.tags@),
        metadata: opt_string_view(request.metadata),
        created_at: now,
        updated_at: now,
    }
}

/// Builds the document a create request makes.
pub fn new_document(request: CreateDocumentRequest, content_hash: String, id: u128, now: String) -> (r:
    Document)
    ensures
        r@ == created_view(request, content_hash@, id, now@),
{
    let updated_at = now.clone();
    Document {
        id,
        title: request.title,
        content: request.content,
        content_hash,
        tags: request.tags,
        metadata: request.metadata,
        created_at: now,
        updated_at,
    }
}

/// What a create request comes to.
pub enum CreateOutcome {
    /// A live document already has the same content: it is returned unchanged
    /// and nothing is stored.
    Existing(Document),
    /// A new document, to be inserted.
    Created(Document),
}

/// The request's metadata, when it has any, is a JSON text.
pub open spec fn metadata_is_json(request: CreateDocumentRequest) -> bool {
    request.metadata matches Some(m) ==> json_valid(m@)
}

/// What a create request comes to when a live document with the same content
/// is stored as `row`: that document, or a server error when the row's id is
/// not a UUID or the row does not read as a document.
pub open spec fn duplicate_outcome(row: DocumentRow, r: Result<CreateOutcome, RouteError>) -> bool {
    match uuid_of_text(row.id@) {
        None => r matches Err(RouteError::Internal(m)) && m@ == id_parse_failed_text(),
        Some(_) => match row_document(row) {
            Some(v) => r matches Ok(CreateOutcome::Existing(d)) && d@ == v,
            None => r matches Err(RouteError::Internal(m)) && m@ == map_failed_text(),
        },
    }
}

fn internal_error(m: &str) -> (r: RouteError)
    ensures
        r matches RouteError::Internal(t) && t@ == m@,
{
    RouteError::Internal(m.to_string())
}

/// The duplicate stored as `row`, as the answer to a create request.
fn duplicate(row: DocumentRow) -> (r: Result<CreateOutcome, RouteError>)
    ensures
        duplicate_outcome(row, r),
{
    match parse_uuid(row.id.as_str()) {
        Err(_) => {
            proof {
                reveal_strlit("Failed to parse existing document id.");
            }
            Err(internal_error("Failed to parse existing document id."))
        },
        Ok(_) => match document_from_row(row) {
            Ok(d) => Ok(CreateOutcome::Existing(d)),
            Err(e) => Err(e500(e)),
        },
    }
}

/// Deduplication: the outcome of a create request, given the live document
/// stored with the same content hash (if any), a fresh id and the time. A new
/// document carries the hash of its content.
pub fn resolve_create(
    request: CreateDocumentRequest,
    existing: Option<DocumentRow>,
    id: u128,
    now: String,
) -> (r: Result<CreateOutcome, RouteError>)
    ensures
        match existing {
            Some(row) => duplicate_outcome(row, r),
            None => r matches Ok(CreateOutcome::Created(d)) && d@ == created_view(
                request,
                content_hash_of(request.content@),
                id,
                now@,
            ),
        },
{
    match existing {
        Some(row) => duplicate(row),
        None => {
            let content_hash = compute_content_hash(request.content.as_str());
            Ok(CreateOutcome::Created(new_document(request, content_hash, id, now)))
        },
    }
}

/// Handles a create request: when a live document with the same content
/// exists (`existing`, looked up by the content's hash), it is the answer;
/// otherwise a new document with a fresh random (version 4) id, created and
/// updated now. A server error answers a failing random source or clock.
pub fn create_document(request: CreateDocumentRequest, existing: Option<DocumentRow>) -> (r: Result<
    CreateOutcome,
    RouteError,
>)
    ensures
        match existing {
            Some(row) => duplicate_outcome(row, r),
            None => match r {
                Ok(CreateOutcome::Created(d)) => {
                    &&& d@ == created_view(
                        request,
                        content_hash_of(request.content@),
                        d.id,
                        d.created_at@,
                    )
                    &&& uuid_version(d.id) == 4
                    &&& uuid_variant(d.id) == 2
                    &&& rfc3339_valid(d.created_at@)
                    &&& metadata_is_json(request) ==> document_readable(d@)
                },
                Ok(CreateOutcome::Existing(_)) => false,
                Err(e) => e matches RouteError::Internal(m) && (m@ == id_failed_text() || m@
                    == clock_failed_text()),
            },
        },
{
    match existing {
        Some(row) => duplicate(row),
        None => {
            let id = match new_uuid_v4() {
                Some(v) => v,
                None => {
                    proof {
                        reveal_strlit("Failed to generate a document id.");
                    }
                    return Err(internal_error("Failed to generate a document id."));
                },
            };
            let now = match now_rfc3339() {
                Some(t) => t,
                None => {
                    proof {
                        reveal_strlit("Failed to read the clock.");
                    }
                    return Err(internal_error("Failed to read the clock."));
                },
            };
            resolve_create(request, None, id, now)
        },
    }
}

/// The document a partial update leaves: supplied fields replace the
/// existing ones, absent fields keep their values; the content hash is
/// recomputed when content is supplied; id and creation time stay; the update
/// time is `now`.
pub open spec fn merged_view(existing: DocumentView, request: UpdateDocumentRequest, now: Seq<char>) -> DocumentView {
    DocumentView {
        id: existing.id,
        title: match request.title {
            Some(t) => t@,
            None => existing.title,
        },
        content: match request.content {
            Some(c) => c@,
            None => existing.content,
        },
        content_hash: match request.content {
            Some(c) => content_hash_of(c@),
            None => existing.content_hash,
        },
        tags: match request.tags {
            Some(t) => strings_view(t@),
            None => existing.tags,
        },
        metadata: match request.metadata {
            Some(m) => Some(m@),
            None => existing.metadata,
        },
        created_at: existing.created_at,
        updated_at: now,
    }
}

/// Merges a partial update into the existing document.
pub fn merge_update(existing: Document, request: UpdateDocumentRequest, now: String) -> (r: Document)
    ensures
        r@ == merged_view(existing@, request, now@),
{
    let Document { id, title, content, content_hash, tags, metadata, created_at, updated_at: _ } =
        existing;
    let ghost request_view = request;
    let UpdateDocumentRequest { title: new_title, content: new_content, tags: new_tags, metadata: new_metadata } =
        request;
    let title = match new_title {
        Some(t) => t,
        None => title,
    };
    let (content, content_hash) = match new_content {
        Some(c) => {
            let h = compute_content_hash(c.as_str());
            (c, h)
        },
        None => (content, content_hash),
    };
    let tags = match new_tags {
        Some(t) => t,
        None => tags,
    };
    let metadata = match new_metadata {
        Some(m) => Some(m),
        None => metadata,
    };
    Document { id, title, content, content_hash, tags, metadata, created_at, updated_at: now }
}

/// Handles an update request for an existing document: the merge, stamped
/// with the current time; a server error when the clock cannot be read.
pub fn update_document(existing: Document, request: UpdateDocumentRequest) -> (r: Result<
    Document,
    RouteError,
>)
    ensures
        match r {
            Ok(d) => {
                &&& d@ == merged_view(existing@, request, d.updated_at@)
                &&& rfc3339_valid(d.updated_at@)
                &&& document_readable(existing@) && (request.metadata matches Some(m) ==> json_valid(
                    m@,
                )) ==> document_readable(d@)
            },
            Err(e) => e matches RouteError::Internal(m) && m@ == clock_failed_text(),
        },
{
    match now_rfc3339() {
        Some(now) => Ok(merge_update(existing, request, now)),
        None => {
            proof {
                reveal_strlit("Failed to read the clock.");
            }
            Err(internal_error("Failed to read the clock."))
        },
    }
}

} // verus!
