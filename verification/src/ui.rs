//! What the web interface decides: the modal's state, the document form,
//! the states of the data it loads, and the texts it shows.
use crate::clock::{is_rfc3339, minute_text, minute_text_of, rfc3339_valid};
use crate::client::{api_error_text, ApiError};
use crate::domain::{
    copy_opt_string, documents_view, opt_string_view, strings_view,
    CreateDocumentRequest, Document, DocumentListResponse, DocumentView, PiBrainStats,
    SearchRequest, SearchResponse, UpdateDocumentRequest,
};
use crate::text::{
    bytes_of, first_chars, i64_text, join_with, joined, signed_decimal, split_at_char, split_on,
    trim, trim_of,
};
use pulldown_cmark::{html, Options, Parser};
use vstd::prelude::*;

verus! {

// ---- Modal ----

/// What the document modal shows.
#[derive(Clone, Copy)]
pub enum ModalType {
    CreateDocument,
    EditDocument(u128),
    ViewDocument(u128),
}

/// Whether the modal is open, and for what.
pub struct ModalState {
    pub is_open: bool,
    pub modal_type: Option<ModalType>,
}

impl Default for ModalState {
    fn default() -> (r: Self)
        ensures
            !r.is_open,
            r.modal_type is None,
    {
        ModalState { is_open: false, modal_type: None }
    }
}

/// Opening the modal for `modal_type`.
pub fn open_modal(modal_type: ModalType) -> (r: ModalState)
    ensures
        r.is_open,
        r.modal_type == Some(modal_type),
{
    ModalState { is_open: true, modal_type: Some(modal_type) }
}

/// Closing the modal: back to the closed, empty state.
pub fn close_modal() -> (r: ModalState)
    ensures
        !r.is_open,
        r.modal_type is None,
{
    ModalState::default()
}

/// The modal's heading.
pub fn modal_title(modal_type: &Option<ModalType>) -> (r: &'static str)
    ensures
        r@ == (match *modal_type {
            Some(ModalType::CreateDocument) => "Create Document"@,
            Some(ModalType::EditDocument(_)) => "Edit Document"@,
            Some(ModalType::ViewDocument(_)) => "View Document"@,
            None => "Document"@,
        }),
{
    match modal_type {
        Some(ModalType::CreateDocument) => "Create Document",
        Some(ModalType::EditDocument(_)) => "Edit Document",
        Some(ModalType::ViewDocument(_)) => "View Document",
        None => "Document",
    }
}

/// The modal only shows (does not edit) a document it views.
pub fn is_read_only(modal_type: &Option<ModalType>) -> (r: bool)
    ensures
        r <==> (*modal_type matches Some(ModalType::ViewDocument(_))),
{
    match modal_type {
        Some(ModalType::ViewDocument(_)) => true,
        _ => false,
    }
}

// ---- Document form ----

/// The fields of the document form; tags are typed comma separated.
pub struct DocumentForm {
    pub title: String,
    pub content: String,
    pub tags: String,
}

/// The separator the form shows between tags.
pub open spec fn tag_separator() -> Seq<char> {
    ", "@
}

/// The tags typed in the form: the comma separated pieces, trimmed, without
/// the empty ones.
pub open spec fn tags_of_input(input: Seq<char>) -> Seq<Seq<char>> {
    split_on(input, ',').map_values(trimmed_piece()).filter(non_empty_piece())
}

/// Trims a comma separated piece.
pub open spec fn trimmed_piece() -> spec_fn(Seq<char>) -> Seq<char> {
    |p: Seq<char>| trim_of(p)
}

/// Keeps the pieces that are not empty.
pub open spec fn non_empty_piece() -> spec_fn(Seq<char>) -> bool {
    |t: Seq<char>| t.len() > 0
}

/// Reads the tags typed in the form.
pub fn parse_tags(input: &str) -> (r: Vec<String>)
    ensures
        strings_view(r@) == tags_of_input(input@),
{
    let pieces = split_at_char(input, ',');
    let ghost trimmed = split_on(input@, ',').map_values(trimmed_piece());
    let mut r: Vec<String> = Vec::new();
    let mut i: usize = 0;
    while i < pieces.len()
        invariant
            0 <= i <= pieces.len(),
            pieces@.map_values(|p: String| p@) == split_on(input@, ','),
            trimmed == split_on(input@, ',').map_values(trimmed_piece()),
            strings_view(r@) == trimmed.take(i as int).filter(non_empty_piece()),
        decreases pieces.len() - i,
    {
        let t = trim(pieces[i].as_str());
        proof {
            assert(trimmed.take(i + 1).drop_last() =~= trimmed.take(i as int));
            assert(pieces@.map_values(|p: String| p@)[i as int] == pieces@[i as int]@);
            assert(trimmed.take(i + 1).last() == t@);
            reveal(Seq::filter);
        }
        if !t.is_empty() {
            let ghost before = r@;
            r.push(t.to_string());
            proof {
                assert(strings_view(r@) =~= strings_view(before).push(t@));
            }
        }
        i = i + 1;
    }
    proof {
        assert(trimmed.take(pieces@.len() as int) =~= trimmed);
    }
    r
}

/// Shows tags in the form: joined with `, `.
pub fn join_tags(tags: &Vec<String>) -> (r: String)
    ensures
        r@ == joined(strings_view(tags@), tag_separator()),
{
    let r = join_with(tags, ", ");
    proof {
        assert(tags@.map_values(|p: String| p@) =~= strings_view(tags@));
    }
    r
}

/// The form after the modal changes: editing an open document fills it
/// with the document; editing with no document leaves it as it was; any
/// other modal empties it.
pub fn reset_form(form: DocumentForm, modal_type: &Option<ModalType>, current: &Option<Document>) -> (r:
    DocumentForm)
    ensures
        match *modal_type {
            Some(ModalType::EditDocument(_)) => match *current {
                Some(d) => r.title@ == d.title@ && r.content@ == d.content@ && r.tags@ == joined(
                    strings_view(d.tags@),
                    tag_separator(),
                ),
                None => r.title@ == form.title@ && r.content@ == form.content@ && r.tags@
                    == form.tags@,
            },
            _ => r.title@.len() == 0 && r.content@.len() == 0 && r.tags@.len() == 0,
        },
{
    match modal_type {
        Some(ModalType::EditDocument(_)) => match current {
            Some(d) => DocumentForm {
                title: d.title.clone(),
                content: d.content.clone(),
                tags: join_tags(&d.tags),
            },
            None => form,
        },
        _ => DocumentForm { title: String::new(), content: String::new(), tags: String::new() },
    }
}

/// What submitting the form does.
pub enum FormSubmission {
    /// Create a document.
    Create(CreateDocumentRequest),
    /// Update the document with this id.
    Update(u128, UpdateDocumentRequest),
    /// Nothing (the modal only views a document, or is closed).
    Ignore,
}

/// Submitting the form: a create request in the create modal (no metadata);
/// in the edit modal an update that sets title, content and tags and keeps
/// the document's metadata.
pub fn submit_form(modal_type: &Option<ModalType>, form: &DocumentForm, current: &Option<Document>) -> (r:
    FormSubmission)
    ensures
        match *modal_type {
            Some(ModalType::CreateDocument) => r matches FormSubmission::Create(req)
                && req.title@ == form.title@ && req.content@ == form.content@ && strings_view(
                req.tags@,
            ) == tags_of_input(form.tags@) && req.metadata is None,
            Some(ModalType::EditDocument(id)) => r matches FormSubmission::Update(rid, req) && rid
                == id && opt_string_view(req.title) == Some(form.title@) && opt_string_view(
                req.content,
            ) == Some(form.content@) && (req.tags matches Some(t) && strings_view(t@)
                == tags_of_input(form.tags@)) && opt_string_view(req.metadata) == (match *current {
                Some(d) => opt_string_view(d.metadata),
                None => None,
            }),
            _ => r is Ignore,
        },
{
    let tags = parse_tags(form.tags.as_str());
    match modal_type {
        Some(ModalType::CreateDocument) => FormSubmission::Create(
            CreateDocumentRequest {
                title: form.title.clone(),
                content: form.content.clone(),
                tags,
                metadata: None,
            },
        ),
        Some(ModalType::EditDocument(id)) => {
            let metadata = match current {
                Some(d) => copy_opt_string(&d.metadata),
                None => None,
            };
            FormSubmission::Update(
                *id,
                UpdateDocumentRequest {
                    title: Some(form.title.clone()),
                    content: Some(form.content.clone()),
                    tags: Some(tags),
                    metadata,
                },
            )
        },
        _ => FormSubmission::Ignore,
    }
}

/// The id the Edit and Delete buttons of the modal act on: the shown
/// document's.
pub fn shown_document_id(current: &Option<Document>) -> (r: Option<u128>)
    ensures
        r == (match *current {
            Some(d) => Some(d.id),
            None => None::<u128>,
        }),
{
    match current {
        Some(d) => Some(d.id),
        None => None,
    }
}

// ---- Loaded data ----

/// The documents the page shows, as loaded from the API.
pub struct DocumentsState {
    pub documents: Vec<Document>,
    pub total: usize,
    pub loading: bool,
    pub error: Option<String>,
}

impl Default for DocumentsState {
    fn default() -> (r: Self)
        ensures
            r.documents@.len() == 0,
            r.total == 0,
            !r.loading,
            r.error is None,
    {
        DocumentsState { documents: Vec::new(), total: 0, loading: false, error: None }
    }
}

/// A load starts: loading, no error, the data kept.
pub fn documents_loading(state: DocumentsState) -> (r: DocumentsState)
    ensures
        r.loading,
        r.error is None,
        documents_view(r.documents@) == documents_view(state.documents@),
        r.total == state.total,
{
    DocumentsState { loading: true, error: None, ..state }
}

/// A load ends: on success the page of documents and the total replace the
/// data and the error is cleared; on failure the data is kept and the error's
/// message is shown.
pub fn documents_loaded(state: DocumentsState, result: Result<DocumentListResponse, ApiError>) -> (r:
    DocumentsState)
    ensures
        !r.loading,
        match result {
            Ok(page) => documents_view(r.documents@) == documents_view(page.documents@) && r.total
                == page.total && r.error is None,
            Err(e) => documents_view(r.documents@) == documents_view(state.documents@) && r.total
                == state.total && opt_string_view(r.error) == Some(api_error_text(e)),
        },
{
    match result {
        Ok(page) => DocumentsState {
            documents: page.documents,
            total: page.total,
            loading: false,
            error: None,
        },
        Err(e) => DocumentsState { loading: false, error: Some(e.message()), ..state },
    }
}

/// The search results the page shows.
pub struct SearchState {
    pub results: SearchResponse,
    pub loading: bool,
    pub error: Option<String>,
}

impl Default for SearchState {
    fn default() -> (r: Self)
        ensures
            r.results.results@.len() == 0,
            r.results.total_count == 0,
            r.results.search_time_ms == 0,
            r.results.query@.len() == 0,
            !r.loading,
            r.error is None,
    {
        SearchState {
            results: SearchResponse {
                results: Vec::new(),
                total_count: 0,
                search_time_ms: 0,
                query: String::new(),
            },
            loading: false,
            error: None,
        }
    }
}

/// A search starts: loading, no error, the previous results kept.
pub fn search_loading(state: SearchState) -> (r: SearchState)
    ensures
        r.loading,
        r.error is None,
        r.results == state.results,
{
    SearchState { loading: true, error: None, ..state }
}

/// A search ends: on success its response replaces the results and the error
/// is cleared; on failure the results are kept and the error is shown.
pub fn search_loaded(state: SearchState, result: Result<SearchResponse, ApiError>) -> (r: SearchState)
    ensures
        !r.loading,
        match result {
            Ok(response) => r.results == response && r.error is None,
            Err(e) => r.results == state.results && opt_string_view(r.error) == Some(
                api_error_text(e),
            ),
        },
{
    match result {
        Ok(response) => SearchState { results: response, loading: false, error: None },
        Err(e) => SearchState { loading: false, error: Some(e.message()), ..state },
    }
}

/// The statistics the page shows.
pub struct StatsState {
    pub stats: Option<PiBrainStats>,
    pub loading: bool,
    pub error: Option<String>,
}

impl Default for StatsState {
    fn default() -> (r: Self)
        ensures
            r.stats is None,
            !r.loading,
            r.error is None,
    {
        StatsState { stats: None, loading: false, error: None }
    }
}

/// Loading the statistics starts: loading, no error, the previous ones kept.
pub fn stats_loading(state: StatsState) -> (r: StatsState)
    ensures
        r.loading,
        r.error is None,
        r.stats == state.stats,
{
    StatsState { loading: true, error: None, ..state }
}

/// Loading the statistics ends: on success they replace the previous ones
/// and the error is cleared; on failure the previous ones stay and the error
/// is shown.
pub fn stats_loaded(state: StatsState, result: Result<PiBrainStats, ApiError>) -> (r: StatsState)
    ensures
        !r.loading,
        match result {
            Ok(stats) => r.stats == Some(stats) && r.error is None,
            Err(e) => r.stats == state.stats && opt_string_view(r.error) == Some(api_error_text(e)),
        },
{
    match result {
        Ok(stats) => StatsState { stats: Some(stats), loading: false, error: None },
        Err(e) => StatsState { loading: false, error: Some(e.message()), ..state },
    }
}

// ---- Home page ----

/// The page of documents the home page loads first, and the size of its
/// searches.
pub const HOME_PAGE_LIMIT: usize = 50;

/// The page the home page loads when it opens: `(limit, offset)`, the first
/// 50 documents.
pub fn initial_documents_page() -> (r: (usize, usize))
    ensures
        r == (HOME_PAGE_LIMIT, 0usize),
{
    (HOME_PAGE_LIMIT, 0)
}

/// The search the home page runs for a query typed in the search bar: no
/// tag filter, the first 50 results.
pub fn home_search_request(query: String) -> (r: SearchRequest)
    ensures
        r.query@ == query@,
        r.tags is None,
        r.limit == Some(HOME_PAGE_LIMIT),
        r.offset == Some(0usize),
{
    SearchRequest { query, tags: None, limit: Some(HOME_PAGE_LIMIT), offset: Some(0) }
}

/// The query the search bar submits: what was typed, unless it is only
/// white space (then nothing is submitted).
pub fn search_submission(query: &str) -> (r: Option<String>)
    ensures
        match r {
            Some(q) => q@ == query@ && trim_of(query@).len() > 0,
            None => trim_of(query@).len() == 0,
        },
{
    if !trim(query).is_empty() {
        Some(query.to_string())
    } else {
        None
    }
}

/// The documents of a search response.
pub open spec fn result_documents(response: SearchResponse) -> Seq<DocumentView> {
    response.results@.map_values(|r: crate::domain::SearchResult| r.document@)
}

/// What the home page shows around its document list.
pub struct HomeView {
    /// The "Clear Search" button: only when a search has results.
    pub show_clear_search: bool,
    /// The loading spinner: while documents or a search are loading.
    pub show_spinner: bool,
    /// The "No documents found" card: nothing to list and nothing loading.
    pub show_empty_state: bool,
}

/// Decides the home page's buttons and notices from the documents' and the
/// search's states.
pub fn home_view(documents: &DocumentsState, search: &SearchState) -> (r: HomeView)
    ensures
        r.show_clear_search == (search.results.results@.len() > 0),
        r.show_spinner == (documents.loading || search.loading),
        r.show_empty_state == ((if search.results.results@.len() == 0 {
            documents.documents@.len()
        } else {
            search.results.results@.len()
        }) == 0 && !documents.loading && !search.loading),
{
    let has_results = search.results.results.len() > 0;
    let listed = if has_results {
        search.results.results.len()
    } else {
        documents.documents.len()
    };
    HomeView {
        show_clear_search: has_results,
        show_spinner: documents.loading || search.loading,
        show_empty_state: listed == 0 && !documents.loading && !search.loading,
    }
}

/// The documents the home page lists: the search results' documents when a
/// search has results, otherwise the loaded documents.
pub fn displayed_documents(documents: &Vec<Document>, search: &SearchResponse) -> (r: Vec<Document>)
    ensures
        documents_view(r@) == (if search.results@.len() == 0 {
            documents_view(documents@)
        } else {
            result_documents(*search)
        }),
{
    let mut r: Vec<Document> = Vec::new();
    if search.results.len() == 0 {
        let mut i: usize = 0;
        while i < documents.len()
            invariant
                0 <= i <= documents.len(),
                documents_view(r@) == documents_view(documents@).take(i as int),
            decreases documents.len() - i,
        {
            let ghost before = r@;
            r.push(documents[i].duplicate());
            proof {
                assert(documents_view(r@) =~= documents_view(before).push(documents@[i as int]@));
                assert(documents_view(documents@).take(i + 1) =~= documents_view(documents@).take(
                    i as int,
                ).push(documents@[i as int]@));
            }
            i = i + 1;
        }
        proof {
            assert(documents_view(documents@).take(documents@.len() as int) =~= documents_view(
                documents@,
            ));
        }
    } else {
        let mut i: usize = 0;
        while i < search.results.len()
            invariant
                0 <= i <= search.results.len(),
                documents_view(r@) == result_documents(*search).take(i as int),
            decreases search.results.len() - i,
        {
            let ghost before = r@;
            r.push(search.results[i].document.duplicate());
            proof {
                assert(documents_view(r@) =~= documents_view(before).push(
                    search.results@[i as int].document@,
                ));
                assert(result_documents(*search).take(i + 1) =~= result_documents(*search).take(
                    i as int,
                ).push(search.results@[i as int].document@));
            }
            i = i + 1;
        }
        proof {
            assert(result_documents(*search).take(search.results@.len() as int) =~= result_documents(
                *search,
            ));
        }
    }
    r
}

/// The first listed document with the id, if any.
pub fn find_document(documents: &Vec<Document>, id: u128) -> (r: Option<Document>)
    ensures
        match r {
            Some(d) => exists|i: int|
                0 <= i < documents@.len() && documents@[i].id == id && d@ == documents@[i]@ && (
                forall|j: int| 0 <= j < i ==> documents@[j].id != id),
            None => forall|i: int| 0 <= i < documents@.len() ==> documents@[i].id != id,
        },
{
    let mut i: usize = 0;
    while i < documents.len()
        invariant
            0 <= i <= documents.len(),
            forall|j: int| 0 <= j < i ==> documents@[j].id != id,
        decreases documents.len() - i,
    {
        if documents[i].id == id {
            return Some(documents[i].duplicate());
        }
        i = i + 1;
    }
    None
}

/// Clicking a listed document: when it is listed, it becomes the shown
/// document and the modal opens to view it.
pub fn view_listed_document(documents: &Vec<Document>, id: u128) -> (r: Option<(Document, ModalState)>)
    ensures
        match r {
            Some((d, m)) => d.id == id && m.is_open && m.modal_type == Some(
                ModalType::ViewDocument(id),
            ) && exists|i: int|
                0 <= i < documents@.len() && documents@[i].id == id && d@ == documents@[i]@ && (
                forall|j: int| 0 <= j < i ==> documents@[j].id != id),
            None => forall|i: int| 0 <= i < documents@.len() ==> documents@[i].id != id,
        },
{
    match find_document(documents, id) {
        Some(d) => Some((d, open_modal(ModalType::ViewDocument(id)))),
        None => None,
    }
}

/// The Edit button: reopens the modal to edit the shown document.
pub fn edit_shown_document(current: &Option<Document>) -> (r: Option<ModalState>)
    ensures
        match *current {
            Some(d) => r matches Some(m) && m.is_open && m.modal_type == Some(
                ModalType::EditDocument(d.id),
            ),
            None => r is None,
        },
{
    match current {
        Some(d) => Some(open_modal(ModalType::EditDocument(d.id))),
        None => None,
    }
}

/// The question asked before a document is deleted.
pub open spec fn delete_confirm_text() -> Seq<char> {
    "Delete this document? This cannot be undone."@
}

/// The Delete button first asks for confirmation, with the fixed question,
/// when a document is shown; with no document shown nothing is asked.
pub fn delete_prompt(current: &Option<Document>) -> (r: Option<String>)
    ensures
        match *current {
            Some(_) => r matches Some(t) && t@ == delete_confirm_text(),
            None => r is None,
        },
{
    match current {
        Some(_) => {
            proof {
                reveal_strlit("Delete this document? This cannot be undone.");
            }
            Some("Delete this document? This cannot be undone.".to_string())
        },
        None => None,
    }
}

/// The Delete button: when a document is shown and the user confirms, its
/// id is deleted (and the modal closes); otherwise nothing happens.
pub fn delete_shown_document(current: &Option<Document>, confirmed: bool) -> (r: Option<u128>)
    ensures
        r == (match *current {
            Some(d) => if confirmed {
                Some(d.id)
            } else {
                None::<u128>
            },
            None => None::<u128>,
        }),
{
    match current {
        Some(d) => if confirmed {
            Some(d.id)
        } else {
            None
        },
        None => None,
    }
}

// ---- Texts shown ----

/// Characters of content shown in a list entry.
pub const PREVIEW_LENGTH: usize = 200;

/// The preview of a document's content in the list: its first 200
/// characters, followed by `...` when the content is longer than 200 bytes.
pub open spec fn preview_of(content: Seq<char>) -> Seq<char> {
    content.take(if PREVIEW_LENGTH <= content.len() {
        PREVIEW_LENGTH as int
    } else {
        content.len() as int
    }) + if bytes_of(content).len() > PREVIEW_LENGTH {
        "..."@
    } else {
        Seq::<char>::empty()
    }
}

/// The preview of a document's content in the list.
pub fn content_preview(content: &str) -> (r: String)
    requires
        bytes_of(content@).len() <= isize::MAX,
    ensures
        r@ == preview_of(content@),
{
    let mut r = first_chars(content, PREVIEW_LENGTH);
    if content.len() > PREVIEW_LENGTH {
        r.append("...");
    }
    proof {
        if !(bytes_of(content@).len() > PREVIEW_LENGTH) {
            assert(r@ =~= preview_of(content@));
        }
    }
    r
}

/// The update time of a list entry: `Updated: ` and the UTC minute.
pub fn updated_label(updated_at: &str) -> (r: String)
    requires
        rfc3339_valid(updated_at@),
    ensures
        r@ == "Updated: "@ + minute_text_of(updated_at@),
{
    let mut r = String::new();
    r.append("Updated: ");
    let t = minute_text(updated_at);
    r.append(t.as_str());
    r
}

/// The update time of a list entry, when the stored time reads as RFC 3339.
pub fn entry_updated_label(updated_at: &str) -> (r: Option<String>)
    ensures
        match r {
            Some(t) => rfc3339_valid(updated_at@) && t@ == "Updated: "@ + minute_text_of(
                updated_at@,
            ),
            None => !rfc3339_valid(updated_at@),
        },
{
    if is_rfc3339(updated_at) {
        Some(updated_label(updated_at))
    } else {
        None
    }
}

/// A card of the statistics display.
pub struct StatCard {
    pub value: String,
    pub label: String,
}

/// Integer division rounding toward zero, as Rust's `/` on integers.
pub open spec fn div_toward_zero(a: int, b: int) -> int {
    if a >= 0 {
        a / b
    } else {
        -((-a) / b)
    }
}

/// The database size in kibibytes (rounded toward zero), as the display
/// shows it.
pub open spec fn kib_text(bytes: i64) -> Seq<char> {
    signed_decimal(div_toward_zero(bytes as int, 1024)) + " KB"@
}

/// The three cards of the statistics display: total documents, unique
/// tags, database size in KB; `-` for each while no statistics are loaded.
pub fn stat_cards(stats: &Option<PiBrainStats>) -> (r: Vec<StatCard>)
    ensures
        r@.len() == 3,
        r@[0].label@ == "Total Documents"@,
        r@[1].label@ == "Unique Tags"@,
        r@[2].label@ == "Database Size"@,
        match *stats {
            Some(s) => r@[0].value@ == signed_decimal(s.total_documents as int) && r@[1].value@
                == signed_decimal(s.unique_tags as int) && r@[2].value@ == kib_text(
                s.database_size_bytes,
            ),
            None => r@[0].value@ == "-"@ && r@[1].value@ == "-"@ && r@[2].value@ == "-"@,
        },
{
    let (total, tags, size) = match stats {
        Some(s) => {
            let mut size = i64_text(s.database_size_bytes / 1024);
            size.append(" KB");
            (i64_text(s.total_documents), i64_text(s.unique_tags), size)
        },
        None => ("-".to_string(), "-".to_string(), "-".to_string()),
    };
    let mut r: Vec<StatCard> = Vec::new();
    r.push(StatCard { value: total, label: "Total Documents".to_string() });
    r.push(StatCard { value: tags, label: "Unique Tags".to_string() });
    r.push(StatCard { value: size, label: "Database Size".to_string() });
    r
}

} // verus!

verus! {

/// The HTML that `pulldown_cmark` renders for a markdown text, with tables
/// and strikethrough enabled.
pub uninterp spec fn markdown_html_of(content: Seq<char>) -> Seq<char>;

/// Parse a markdown string into HTML using pulldown-cmark.
/// Tables and strikethrough are enabled for richer rendering.
///
/// Calls `Parser::new_ext` with `ENABLE_TABLES | ENABLE_STRIKETHROUGH` and
/// `html::push_html` into an empty string; the HTML is named by
/// `markdown_html_of`.
#[verifier::external_body]
pub fn render_markdown(content: &str) -> (r: String)
    ensures
        r@ == markdown_html_of(content@),
{
    let options = Options::ENABLE_TABLES | Options::ENABLE_STRIKETHROUGH;
    let parser = Parser::new_ext(content, options);
    let mut html_output = String::new();
    html::push_html(&mut html_output, parser);
    html_output
}

} // verus!

verus! {

/// A change the page makes to the documents.
#[derive(Clone, Copy)]
pub enum DocumentAction {
    Create,
    Update,
    Delete,
}

pub open spec fn action_word(action: DocumentAction) -> Seq<char> {
    match action {
        DocumentAction::Create => "create"@,
        DocumentAction::Update => "update"@,
        DocumentAction::Delete => "delete"@,
    }
}

/// What follows a change: the page reloads, or the failure is reported on
/// the console.
pub enum ChangeEffect {
    Reload,
    Report(String),
}

/// After a create, update or delete request: reload the page when it
/// succeeded, otherwise report `Failed to {action} document: {error}`.
pub fn change_effect(action: DocumentAction, error: Option<ApiError>) -> (r: ChangeEffect)
    ensures
        match error {
            None => r is Reload,
            Some(e) => r matches ChangeEffect::Report(m) && m@ == "Failed to "@ + action_word(action)
                + " document: "@ + api_error_text(e),
        },
{
    match error {
        None => ChangeEffect::Reload,
        Some(e) => {
            let mut m = String::new();
            m.append("Failed to ");
            match action {
                DocumentAction::Create => m.append("create"),
                DocumentAction::Update => m.append("update"),
                DocumentAction::Delete => m.append("delete"),
            }
            m.append(" document: ");
            let text = e.message();
            m.append(text.as_str());
            ChangeEffect::Report(m)
        },
    }
}

} // verus!
