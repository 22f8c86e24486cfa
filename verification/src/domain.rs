//! The documents of the knowledge base and the requests and responses of its
//! API.
//!
//! Ids are the 128-bit values of UUIDs; timestamps are RFC 3339 texts as
//! stored in the database; metadata is a JSON text.
use vstd::prelude::*;

verus! {

/// A stored document.
pub struct Document {
    pub id: u128,
    pub title: String,
    pub content: String,
    /// Hex SHA-256 of `content`; documents are deduplicated by it.
    pub content_hash: String,
    pub tags: Vec<String>,
    /// JSON text, when the document carries metadata.
    pub metadata: Option<String>,
    pub created_at: String,
    pub updated_at: String,
}

/// The mathematical value of a document.
pub struct DocumentView {
    pub id: u128,
    pub title: Seq<char>,
    pub content: Seq<char>,
    pub content_hash: Seq<char>,
    pub tags: Seq<Seq<char>>,
    pub metadata: Option<Seq<char>>,
    pub created_at: Seq<char>,
    pub updated_at: Seq<char>,
}

pub open spec fn strings_view(v: Seq<String>) -> Seq<Seq<char>> {
    v.map_values(|s: String| s@)
}

pub open spec fn opt_string_view(o: Option<String>) -> Option<Seq<char>> {
    match o {
        Some(s) => Some(s@),
        None => None,
    }
}

pub open spec fn opt_strings_view(o: Option<Vec<String>>) -> Option<Seq<Seq<char>>> {
    match o {
        Some(v) => Some(strings_view(v@)),
        None => None,
    }
}

impl View for Document {
    type V = DocumentView;

    open spec fn view(&self) -> DocumentView {
        DocumentView {
            id: self.id,
            title: self.title@,
            content: self.content@,
            content_hash: self.content_hash@,
            tags: strings_view(self.tags@),
            metadata: opt_string_view(self.metadata),
            created_at: self.created_at@,
            updated_at: self.updated_at@,
        }
    }
}

pub open spec fn documents_view(v: Seq<Document>) -> Seq<DocumentView> {
    v.map_values(|d: Document| d@)
}

/// A copy of a list of texts.
pub fn copy_strings(v: &Vec<String>) -> (r: Vec<String>)
    ensures
        strings_view(r@) == strings_view(v@),
{
    let mut r: Vec<String> = Vec::new();
    let mut i: usize = 0;
    while i < v.len()
        invariant
            0 <= i <= v.len(),
            strings_view(r@) == strings_view(v@).take(i as int),
        decreases v.len() - i,
    {
        r.push(v[i].clone());
        proof {
            assert(strings_view(v@).take(i + 1) =~= strings_view(v@).take(i as int).push(v@[i as int]@));
            assert(strings_view(r@) =~= strings_view(v@).take(i as int).push(v@[i as int]@));
        }
        i = i + 1;
    }
    proof {
        assert(strings_view(v@).take(v@.len() as int) =~= strings_view(v@));
    }
    r
}

pub fn copy_opt_string(o: &Option<String>) -> (r: Option<String>)
    ensures
        opt_string_view(r) == opt_string_view(*o),
{
    match o {
        Some(s) => Some(s.clone()),
        None => None,
    }
}

impl Document {
    /// A copy of the document.
    pub fn duplicate(&self) -> (r: Document)
        ensures
            r@ == self@,
    {
        Document {
            id: self.id,
            title: self.title.clone(),
            content: self.content.clone(),
            content_hash: self.content_hash.clone(),
            tags: copy_strings(&self.tags),
            metadata: copy_opt_string(&self.metadata),
            created_at: self.created_at.clone(),
            updated_at: self.updated_at.clone(),
        }
    }
}

/// Body of a request that creates a document.
pub struct CreateDocumentRequest {
    pub title: String,
    pub content: String,
    pub tags: Vec<String>,
    pub metadata: Option<String>,
}

/// Body of a request that updates a document: only the supplied fields change.
pub struct UpdateDocumentRequest {
    pub title: Option<String>,
    pub content: Option<String>,
    pub tags: Option<Vec<String>>,
    pub metadata: Option<String>,
}

/// Body of a search request.
pub struct SearchRequest {
    pub query: String,
    pub tags: Option<Vec<String>>,
    pub limit: Option<usize>,
    pub offset: Option<usize>,
}

/// A document found by a search, with the excerpt shown for it.
pub struct SearchResult {
    pub document: Document,
    pub excerpt: String,
}

/// The answer to a search.
pub struct SearchResponse {
    pub results: Vec<SearchResult>,
    pub total_count: usize,
    pub search_time_ms: u64,
    pub query: String,
}

/// One page of the document list.
pub struct DocumentListResponse {
    pub documents: Vec<Document>,
    pub total: usize,
    pub limit: usize,
    pub offset: usize,
}

/// Statistics of the knowledge base.
pub struct PiBrainStats {
    pub total_documents: i64,
    pub total_links: i64,
    pub unique_tags: i64,
    pub database_size_bytes: i64,
    /// RFC 3339 time of the latest update.
    pub last_updated: String,
}

} // verus!
