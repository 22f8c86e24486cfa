//! Listing and searching: page parameters, and the responses built from the
//! documents a search found.
use crate::domain::{
    documents_view, Document, DocumentListResponse, SearchRequest, SearchResponse, SearchResult,
};
use crate::excerpt::{excerpt_of, extract_excerpt, EXCERPT_LENGTH};
use crate::text::{bytes_of, lowercase_of};
use vstd::prelude::*;

verus! {

/// Page size of `GET /pb/documents` when the query string gives none.
pub const DEFAULT_LIST_LIMIT: usize = 50;

/// Page size of a search when the request gives none.
pub const DEFAULT_SEARCH_LIMIT: usize = 20;

pub open spec fn or_default(o: Option<usize>, d: usize) -> usize {
    match o {
        Some(v) => v,
        None => d,
    }
}

/// The page of the document list: `(limit, offset)`, by default the first 50.
pub fn list_page(limit: Option<usize>, offset: Option<usize>) -> (r: (usize, usize))
    ensures
        r == (or_default(limit, DEFAULT_LIST_LIMIT), or_default(offset, 0)),
{
    let l = match limit {
        Some(v) => v,
        None => DEFAULT_LIST_LIMIT,
    };
    let o = match offset {
        Some(v) => v,
        None => 0,
    };
    (l, o)
}

/// The page of a search: `(limit, offset)`, by default the first 20.
pub fn search_page(request: &SearchRequest) -> (r: (usize, usize))
    ensures
        r == (or_default(request.limit, DEFAULT_SEARCH_LIMIT), or_default(request.offset, 0)),
{
    let l = match request.limit {
        Some(v) => v,
        None => DEFAULT_SEARCH_LIMIT,
    };
    let o = match request.offset {
        Some(v) => v,
        None => 0,
    };
    (l, o)
}

/// The search request of `GET /pb/search?q=..&limit=..&offset=..`: the query
/// (empty when absent), no tag filter, the given page.
pub fn search_request_from_params(q: Option<String>, limit: Option<usize>, offset: Option<usize>) -> (r:
    SearchRequest)
    ensures
        r.query@ == (match q {
            Some(s) => s@,
            None => Seq::<char>::empty(),
        }),
        r.tags is None,
        r.limit == limit,
        r.offset == offset,
{
    let query = match q {
        Some(s) => s,
        None => String::new(),
    };
    SearchRequest { query, tags: None, limit, offset }
}

/// One page of the document list, with the total number of live documents.
pub fn list_response(documents: Vec<Document>, total: i64, limit: usize, offset: usize) -> (r:
    DocumentListResponse)
    ensures
        documents_view(r.documents@) == documents_view(documents@),
        r.total == total as usize,
        r.limit == limit,
        r.offset == offset,
{
    DocumentListResponse { documents, total: total as usize, limit, offset }
}

/// The excerpt shown for a document found by `query`.
pub open spec fn result_excerpt(d: Document, query: Seq<char>) -> Seq<char> {
    excerpt_of(
        d.content@,
        lowercase_of(d.content@),
        lowercase_of(query),
        bytes_of(query).len() as int,
        EXCERPT_LENGTH as int,
    )
}

/// Every document's content fits in memory (`isize::MAX` bytes).
pub open spec fn contents_fit(documents: Seq<Document>) -> bool {
    forall|i: int| 0 <= i < documents.len() ==> bytes_of(#[trigger] documents[i].content@).len() <= isize::MAX
}

/// The results of a search: the documents in the order found, each with its
/// excerpt around the query.
pub fn search_results(documents: Vec<Document>, query: &str) -> (r: Vec<SearchResult>)
    requires
        contents_fit(documents@),
        bytes_of(query@).len() + EXCERPT_LENGTH / 2 <= usize::MAX - isize::MAX,
    ensures
        r@.len() == documents@.len(),
        forall|i: int|
            0 <= i < r@.len() ==> (#[trigger] r@[i]).document@ == documents@[i]@ && r@[i].excerpt@
                == result_excerpt(documents@[i], query@),
{
    broadcast use vstd::std_specs::vec::axiom_spec_into_iter;

    let ghost found = documents@;
    let mut r: Vec<SearchResult> = Vec::new();
    for doc in it: documents.into_iter()
        invariant
            it.seq() == found,
            r@.len() == it.index(),
            contents_fit(found),
            bytes_of(query@).len() + EXCERPT_LENGTH / 2 <= usize::MAX - isize::MAX,
            forall|i: int|
                0 <= i < r@.len() ==> (#[trigger] r@[i]).document@ == found[i]@ && r@[i].excerpt@
                    == result_excerpt(found[i], query@),
    {
        assert(doc == found[r@.len() as int]);
        let excerpt = extract_excerpt(doc.content.as_str(), query, EXCERPT_LENGTH);
        r.push(SearchResult { document: doc, excerpt });
    }
    r
}

/// The answer to a search: its results, the total number of matches, the
/// time it took and the query as given.
pub fn search_response(documents: Vec<Document>, total_count: i64, search_time_ms: u64, query: String) -> (r:
    SearchResponse)
    requires
        contents_fit(documents@),
        bytes_of(query@).len() + EXCERPT_LENGTH / 2 <= usize::MAX - isize::MAX,
    ensures
        r.results@.len() == documents@.len(),
        forall|i: int|
            0 <= i < r.results@.len() ==> (#[trigger] r.results@[i]).document@ == documents@[i]@
                && r.results@[i].excerpt@ == result_excerpt(documents@[i], query@),
        r.total_count == total_count as usize,
        r.search_time_ms == search_time_ms,
        r.query@ == query@,
{
    let results = search_results(documents, query.as_str());
    SearchResponse { results, total_count: total_count as usize, search_time_ms, query }
}

} // verus!
