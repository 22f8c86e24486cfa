//! Properties of the knowledge base that hold across its operations.
use crate::clock::rfc3339_valid;
use crate::documents::{
    created_view, document_readable, duplicate_outcome, merged_view, metadata_is_json, row_document,
    CreateOutcome, DocumentRow,
};
use crate::error::RouteError;
use crate::stats::{last_updated_of, stored_time_readable};
use crate::json::json_valid;
use crate::domain::{CreateDocumentRequest, DocumentView, UpdateDocumentRequest};
use crate::excerpt::{excerpt_of, min_int, saturating_sub, window_end, window_start};
use crate::hash::content_hash_of;
use crate::sql::{
    count_query_sql, filters_args, filters_sql, page_query_args, page_query_sql, placeholder,
    tag_filters_sql, CLOSE_SQL, COUNT_LIVE_SQL, FTS_FILTER_SQL, OFFSET_SQL,
    ORDER_LIMIT_SQL, SELECT_LIVE_SQL, TAG_FILTER_SQL, int_arg, page_tail,
};
use crate::text::{
    bytes_of, is_white_space, lemma_ceil_boundary_near, lemma_floor_boundary_near, joined, lemma_ceil_boundary,
    lemma_floor_boundary, split_on, trim_front, trim_of,
};
use crate::ui::{non_empty_piece, tag_separator, tags_of_input, trimmed_piece};
use vstd::prelude::*;

verus! {

broadcast use vstd::utf8::encode_utf8_valid_utf8;

/// A document's stored hash is the hash of its content.
pub open spec fn hash_matches_content(d: DocumentView) -> bool {
    d.content_hash == content_hash_of(d.content)
}

/// A created document's hash is the hash of its content.
pub proof fn law_created_document_hash_matches(request: CreateDocumentRequest, id: u128, now: Seq<char>)
    ensures
        hash_matches_content(created_view(request, content_hash_of(request.content@), id, now)),
{
}

/// A created document reads back from its stored row: stamped with an
/// RFC 3339 time, and with JSON metadata when the request's is JSON.
pub proof fn law_created_document_is_readable(request: CreateDocumentRequest, id: u128, now: Seq<char>)
    requires
        rfc3339_valid(now),
        metadata_is_json(request),
    ensures
        document_readable(created_view(request, content_hash_of(request.content@), id, now)),
{
}

/// Deduplication across two creates: the row the first document is stored
/// as holds, in its hash column, the very hash a second create with the same
/// content looks up; handed that row, the second create answers with the
/// first document unchanged (its id, title, tags, metadata and times), whatever
/// else the second request says.
pub proof fn law_same_content_answers_the_first_document(
    first: CreateDocumentRequest,
    second: CreateDocumentRequest,
    id: u128,
    now: Seq<char>,
    row: DocumentRow,
    answer: Result<CreateOutcome, RouteError>,
)
    requires
        second.content@ == first.content@,
        row_document(row) == Some(created_view(first, content_hash_of(first.content@), id, now)),
        duplicate_outcome(row, answer),
    ensures
        row.content_hash@ == content_hash_of(second.content@),
        answer matches Ok(CreateOutcome::Existing(d)) && d@ == created_view(
            first,
            content_hash_of(first.content@),
            id,
            now,
        ),
{
}

/// An update keeps a readable document readable, when it is stamped with an
/// RFC 3339 time and any metadata it supplies is JSON.
pub proof fn law_update_keeps_document_readable(
    existing: DocumentView,
    request: UpdateDocumentRequest,
    now: Seq<char>,
)
    requires
        document_readable(existing),
        rfc3339_valid(now),
        request.metadata matches Some(m) ==> json_valid(m@),
    ensures
        document_readable(merged_view(existing, request, now)),
{
}

/// An update keeps a document's hash equal to the hash of its content.
pub proof fn law_update_keeps_hash_matching(
    existing: DocumentView,
    request: UpdateDocumentRequest,
    now: Seq<char>,
)
    requires
        hash_matches_content(existing),
    ensures
        hash_matches_content(merged_view(existing, request, now)),
{
}

/// A created document carries the id drawn for it and is created and updated
/// at the time given; so two creates that draw different ids make documents
/// with different ids, whatever their requests.
pub proof fn law_created_documents_carry_their_draws(
    first: CreateDocumentRequest,
    second: CreateDocumentRequest,
    id1: u128,
    id2: u128,
    now1: Seq<char>,
    now2: Seq<char>,
)
    ensures
        created_view(first, content_hash_of(first.content@), id1, now1).id == id1,
        created_view(first, content_hash_of(first.content@), id1, now1).created_at == now1,
        created_view(first, content_hash_of(first.content@), id1, now1).updated_at == now1,
        id1 != id2 ==> created_view(first, content_hash_of(first.content@), id1, now1).id
            != created_view(second, content_hash_of(second.content@), id2, now2).id,
{
}

/// The statistics' last update is the stored latest update time when it reads
/// as RFC 3339, and otherwise the current time they are given.
pub proof fn law_stats_fall_back_to_now(raw: Option<Option<String>>, now: Seq<char>)
    ensures
        !stored_time_readable(raw) ==> last_updated_of(raw, now) == now,
        raw matches Some(Some(t)) ==> (rfc3339_valid(t@) ==> last_updated_of(raw, now) == t@),
{
}

/// An update keeps the document's id and creation time, and stamps the
/// update time.
pub proof fn law_update_keeps_identity(
    existing: DocumentView,
    request: UpdateDocumentRequest,
    now: Seq<char>,
)
    ensures
        merged_view(existing, request, now).id == existing.id,
        merged_view(existing, request, now).created_at == existing.created_at,
        merged_view(existing, request, now).updated_at == now,
{
}

/// An update that supplies no field changes nothing but the update time.
pub proof fn law_empty_update_changes_only_update_time(existing: DocumentView, now: Seq<char>)
    ensures
        merged_view(
            existing,
            UpdateDocumentRequest { title: None, content: None, tags: None, metadata: None },
            now,
        ) == (DocumentView { updated_at: now, ..existing }),
{
}

/// The update made of `first` then `second`: each field as `second` gives
/// it, else as `first` gives it.
pub open spec fn then_update(first: UpdateDocumentRequest, second: UpdateDocumentRequest) -> UpdateDocumentRequest {
    UpdateDocumentRequest {
        title: if second.title is Some {
            second.title
        } else {
            first.title
        },
        content: if second.content is Some {
            second.content
        } else {
            first.content
        },
        tags: if second.tags is Some {
            second.tags
        } else {
            first.tags
        },
        metadata: if second.metadata is Some {
            second.metadata
        } else {
            first.metadata
        },
    }
}

/// Two partial updates in a row leave the document one combined update
/// leaves: the later update's fields win, the earlier's fill in.
pub proof fn law_updates_compose(
    existing: DocumentView,
    first: UpdateDocumentRequest,
    second: UpdateDocumentRequest,
    t1: Seq<char>,
    t2: Seq<char>,
)
    ensures
        merged_view(merged_view(existing, first, t1), second, t2) == merged_view(
            existing,
            then_update(first, second),
            t2,
        ),
{
}

/// The number of `?` placeholders in a statement text.
pub open spec fn placeholders(s: Seq<char>) -> nat
    decreases s.len(),
{
    if s.len() == 0 {
        0
    } else {
        placeholders(s.drop_last()) + if s.last() == '?' {
            1nat
        } else {
            0nat
        }
    }
}

proof fn lemma_placeholders_concat(a: Seq<char>, b: Seq<char>)
    ensures
        placeholders(a + b) == placeholders(a) + placeholders(b),
    decreases b.len(),
{
    if b.len() == 0 {
        assert(a + b =~= a);
    } else {
        lemma_placeholders_concat(a, b.drop_last());
        assert((a + b).drop_last() =~= a + b.drop_last());
    }
}

proof fn lemma_no_placeholders(s: Seq<char>)
    requires
        forall|i: int| 0 <= i < s.len() ==> s[i] != '?',
    ensures
        placeholders(s) == 0,
    decreases s.len(),
{
    if s.len() > 0 {
        lemma_no_placeholders(s.drop_last());
    }
}

proof fn lemma_one_placeholder()
    ensures
        placeholders(placeholder()) == 1,
{
    assert(placeholder().drop_last() =~= Seq::<char>::empty());
    assert(placeholders(Seq::<char>::empty()) == 0);
}

proof fn lemma_tag_filter_placeholders(tags: Seq<Seq<char>>)
    requires
        placeholders(TAG_FILTER_SQL@) == 0,
    ensures
        placeholders(tag_filters_sql(tags)) == tags.len(),
    decreases tags.len(),
{
    if tags.len() > 0 {
        lemma_tag_filter_placeholders(tags.drop_last());
        lemma_placeholders_concat(tag_filters_sql(tags.drop_last()), TAG_FILTER_SQL@);
        lemma_placeholders_concat(tag_filters_sql(tags.drop_last()) + TAG_FILTER_SQL@, placeholder());
        lemma_one_placeholder();
    }
}

/// Every placeholder of the search's queries has its argument: the count
/// query holds as many `?` as it binds arguments (the full-text query, then
/// one pattern per tag), and so does the page query (which adds the limit and
/// the offset).
pub proof fn law_every_placeholder_is_bound(
    query: Seq<char>,
    tags: Seq<Seq<char>>,
    limit: usize,
    offset: usize,
)
    ensures
        placeholders(count_query_sql(query, tags)) == filters_args(query, tags).len(),
        placeholders(page_query_sql(query, tags)) == page_query_args(query, tags, limit, offset).len(),
{
    reveal_strlit("SELECT COUNT(*) FROM documents WHERE is_deleted = 0");
    reveal_strlit("SELECT id, title, content, content_hash, tags, metadata, created_at, updated_at FROM documents WHERE is_deleted = 0");
    reveal_strlit(" AND id IN (SELECT id FROM documents_fts WHERE documents_fts MATCH ");
    reveal_strlit(")");
    reveal_strlit(" AND tags LIKE ");
    reveal_strlit(" ORDER BY updated_at DESC LIMIT ");
    reveal_strlit(" OFFSET ");
    lemma_no_placeholders(COUNT_LIVE_SQL@);
    lemma_no_placeholders(SELECT_LIVE_SQL@);
    lemma_no_placeholders(FTS_FILTER_SQL@);
    lemma_no_placeholders(CLOSE_SQL@);
    lemma_no_placeholders(TAG_FILTER_SQL@);
    lemma_no_placeholders(ORDER_LIMIT_SQL@);
    lemma_no_placeholders(OFFSET_SQL@);
    lemma_one_placeholder();
    lemma_tag_filter_placeholders(tags);
    let tag_part = tag_filters_sql(tags);
    let fts = FTS_FILTER_SQL@ + placeholder() + CLOSE_SQL@;
    lemma_placeholders_concat(FTS_FILTER_SQL@, placeholder());
    lemma_placeholders_concat(FTS_FILTER_SQL@ + placeholder(), CLOSE_SQL@);
    let filters = filters_sql(query, tags);
    if query.len() == 0 {
        assert(filters =~= tag_part);
    } else {
        assert(filters =~= fts + tag_part);
        lemma_placeholders_concat(fts, tag_part);
    }
    assert(filters_args(query, tags).len() == (if query.len() == 0 { 0int } else { 1int }) + tags.len());
    lemma_placeholders_concat(COUNT_LIVE_SQL@, filters);
    let a = SELECT_LIVE_SQL@ + filters;
    let b = a + ORDER_LIMIT_SQL@;
    let c = b + placeholder();
    let d = c + OFFSET_SQL@;
    lemma_placeholders_concat(SELECT_LIVE_SQL@, filters);
    lemma_placeholders_concat(a, ORDER_LIMIT_SQL@);
    lemma_placeholders_concat(b, placeholder());
    lemma_placeholders_concat(c, OFFSET_SQL@);
    lemma_placeholders_concat(d, placeholder());
}

/// A page query binds the requested limit to the placeholder after `LIMIT`
/// and the requested offset to the one after `OFFSET`: its text ends with
/// `ORDER BY updated_at DESC LIMIT ? OFFSET ?`, which holds its last two
/// placeholders, and its last two arguments are the limit, then the offset.
pub proof fn law_page_binds_limit_then_offset(
    query: Seq<char>,
    tags: Seq<Seq<char>>,
    limit: usize,
    offset: usize,
)
    ensures
        ({
            let args = page_query_args(query, tags, limit, offset);
            &&& args.len() >= 2
            &&& args[args.len() - 2] == int_arg(limit as i64)
            &&& args[args.len() - 1] == int_arg(offset as i64)
        }),
        ({
            let text = page_query_sql(query, tags);
            &&& text.len() >= page_tail().len()
            &&& text.subrange(text.len() - page_tail().len(), text.len() as int) == page_tail()
        }),
        placeholders(page_tail()) == 2,
{
    let text = page_query_sql(query, tags);
    let body = SELECT_LIVE_SQL@ + filters_sql(query, tags);
    assert(text =~= body + page_tail());
    assert(text.subrange(text.len() - page_tail().len(), text.len() as int) =~= page_tail());
    reveal_strlit(" ORDER BY updated_at DESC LIMIT ");
    reveal_strlit(" OFFSET ");
    lemma_no_placeholders(ORDER_LIMIT_SQL@);
    lemma_no_placeholders(OFFSET_SQL@);
    lemma_one_placeholder();
    lemma_placeholders_concat(ORDER_LIMIT_SQL@, placeholder());
    lemma_placeholders_concat(ORDER_LIMIT_SQL@ + placeholder(), OFFSET_SQL@);
    lemma_placeholders_concat(ORDER_LIMIT_SQL@ + placeholder() + OFFSET_SQL@, placeholder());
}

/// Content that fits in the excerpt length is its own excerpt.
pub proof fn law_short_content_is_its_excerpt(
    content: Seq<char>,
    content_lower: Seq<char>,
    query_lower: Seq<char>,
    query_len: int,
    max_length: int,
)
    requires
        bytes_of(content).len() <= max_length,
    ensures
        excerpt_of(content, content_lower, query_lower, query_len, max_length) == content,
{
}

/// The excerpt's window around a match covers the whole match: it starts at
/// or before the match and ends at or after it (within the content).
pub proof fn law_excerpt_window_covers_match(
    content: Seq<char>,
    pos: int,
    query_len: int,
    max_length: int,
)
    requires
        0 <= pos,
        0 <= query_len,
        0 <= max_length,
        pos + query_len <= bytes_of(content).len(),
    ensures
        window_start(bytes_of(content), pos, max_length) <= pos,
        pos + query_len <= window_end(bytes_of(content), pos, query_len, max_length),
{
    let bytes = bytes_of(content);
    lemma_floor_boundary(bytes, saturating_sub(pos, max_length / 2));
    lemma_ceil_boundary(bytes, min_int(pos + query_len + max_length / 2, bytes.len() as int));
}

/// The excerpt's window around a match is never much wider than asked:
/// at most `max_length` bytes plus the query's, plus three on each side to
/// reach char boundaries.
pub proof fn law_excerpt_window_is_bounded(
    content: Seq<char>,
    pos: int,
    query_len: int,
    max_length: int,
)
    requires
        0 <= pos,
        0 <= query_len,
        0 <= max_length,
    ensures
        window_end(bytes_of(content), pos, query_len, max_length) - window_start(
            bytes_of(content),
            pos,
            max_length,
        ) <= query_len + max_length + 6,
{
    let bytes = bytes_of(content);
    let a = saturating_sub(pos, max_length / 2);
    let c = min_int(pos + query_len + max_length / 2, bytes.len() as int);
    lemma_floor_boundary(bytes, a);
    lemma_ceil_boundary(bytes, c);
    lemma_ceil_boundary_near(bytes, c);
    if a <= bytes.len() {
        lemma_floor_boundary_near(bytes, a);
    }
}

/// Tags the form can show and read back: not empty, no comma, no white
/// space around them.
pub open spec fn form_safe_tag(t: Seq<char>) -> bool {
    &&& t.len() > 0
    &&& !t.contains(',')
    &&& trim_of(t) == t
}

proof fn lemma_split_extend(a: Seq<char>, b: Seq<char>, sep: char)
    requires
        !b.contains(sep),
    ensures
        split_on(a + b, sep) == split_on(a, sep).update(
            split_on(a, sep).len() - 1,
            split_on(a, sep).last() + b,
        ),
    decreases b.len(),
{
    crate::text::lemma_split_on_nonempty(a, sep);
    if b.len() == 0 {
        assert(a + b =~= a);
        assert(split_on(a, sep).last() + b =~= split_on(a, sep).last());
        assert(split_on(a, sep).update(split_on(a, sep).len() - 1, split_on(a, sep).last())
            =~= split_on(a, sep));
    } else {
        let init = b.drop_last();
        assert(!init.contains(sep)) by {
            if init.contains(sep) {
                let k = choose|k: int| 0 <= k < init.len() && init[k] == sep;
                assert(b[k] == sep);
            }
        }
        assert(b.last() != sep) by {
            assert(b[b.len() - 1] == b.last());
        }
        lemma_split_extend(a, init, sep);
        assert((a + b).drop_last() =~= a + init);
        assert((a + b).last() == b.last());
        crate::text::lemma_split_on_nonempty(a + init, sep);
        let p = split_on(a, sep);
        let q = split_on(a + init, sep);
        assert(q.len() == p.len());
        assert(q.last() == p.last() + init);
        assert(split_on(a + b, sep) == q.update(q.len() - 1, q.last().push(b.last())));
        assert(q.last().push(b.last()) =~= p.last() + b);
        assert(q.update(q.len() - 1, p.last() + b) =~= p.update(p.len() - 1, p.last() + b));
    }
}

proof fn lemma_split_joined(tags: Seq<Seq<char>>)
    requires
        tags.len() > 0,
        forall|i: int| 0 <= i < tags.len() ==> !(#[trigger] tags[i]).contains(','),
    ensures
        split_on(joined(tags, tag_separator()), ',') == Seq::new(
            tags.len(),
            |i: int| if i == 0 {
                tags[0]
            } else {
                seq![' '] + tags[i]
            },
        ),
    decreases tags.len(),
{
    reveal_strlit(", ");
    if tags.len() == 1 {
        lemma_split_extend(Seq::empty(), tags[0], ',');
        assert(Seq::<char>::empty() + tags[0] =~= tags[0]);
        assert(split_on(Seq::<char>::empty(), ',') =~= seq![Seq::<char>::empty()]);
        assert(Seq::<char>::empty() + tags[0] =~= tags[0]);
    } else {
        let init = tags.drop_last();
        let last = tags.last();
        assert(forall|i: int| 0 <= i < init.len() ==> !(#[trigger] init[i]).contains(',')) by {
            assert forall|i: int| 0 <= i < init.len() implies !(#[trigger] init[i]).contains(',') by {
                assert(init[i] == tags[i]);
            }
        }
        assert(!last.contains(',')) by {
            assert(last == tags[tags.len() - 1]);
        }
        lemma_split_joined(init);
        let j = joined(init, tag_separator());
        assert(joined(tags, tag_separator()) == j + tag_separator() + last);
        let rest = seq![' '] + last;
        assert(!rest.contains(',')) by {
            if rest.contains(',') {
                let k = choose|k: int| 0 <= k < rest.len() && rest[k] == ',';
                assert(k > 0);
                assert(last[k - 1] == ',');
            }
        }
        assert(j + tag_separator() + last =~= (j + seq![',']) + rest);
        lemma_split_extend(j + seq![','], rest, ',');
        assert((j + seq![',']).drop_last() =~= j);
        crate::text::lemma_split_on_nonempty(j, ',');
        let pj = split_on(j, ',');
        assert(split_on(j + seq![','], ',') == pj.push(Seq::empty()));
        assert(Seq::<char>::empty() + rest =~= rest);
        assert(split_on(joined(tags, tag_separator()), ',') =~= Seq::new(
            tags.len(),
            |i: int| if i == 0 {
                tags[0]
            } else {
                seq![' '] + tags[i]
            },
        ));
    }
}

proof fn lemma_filter_all(s: Seq<Seq<char>>)
    requires
        forall|i: int| 0 <= i < s.len() ==> (#[trigger] s[i]).len() > 0,
    ensures
        s.filter(non_empty_piece()) == s,
    decreases s.len(),
{
    reveal(Seq::filter);
    if s.len() > 0 {
        let init = s.drop_last();
        assert forall|i: int| 0 <= i < init.len() implies (#[trigger] init[i]).len() > 0 by {
            assert(init[i] == s[i]);
        }
        lemma_filter_all(init);
        assert(s.last() == s[s.len() - 1]);
        assert(init.push(s.last()) =~= s);
    }
}

/// Editing a document: the form shows its tags joined with `, `, and reading
/// the field back gives the same tags, for tags that are not empty, hold no
/// comma and have no white space around them.
pub proof fn law_tags_survive_the_form(tags: Seq<Seq<char>>)
    requires
        forall|i: int| 0 <= i < tags.len() ==> form_safe_tag(#[trigger] tags[i]),
    ensures
        tags_of_input(joined(tags, tag_separator())) == tags,
{
    if tags.len() == 0 {
        assert(joined(tags, tag_separator()) =~= Seq::<char>::empty());
        reveal(Seq::filter);
        let one = split_on(Seq::<char>::empty(), ',');
        assert(one =~= seq![Seq::<char>::empty()]);
        let trimmed = one.map_values(trimmed_piece());
        assert(trimmed.len() == 1);
        assert(trim_of(Seq::<char>::empty()) =~= Seq::<char>::empty());
        assert(trimmed =~= seq![Seq::<char>::empty()]);
        assert(trimmed.drop_last() =~= Seq::<Seq<char>>::empty());
        assert(Seq::<Seq<char>>::empty().filter(non_empty_piece()) =~= Seq::<Seq<char>>::empty());
        assert(trimmed.filter(non_empty_piece()) =~= Seq::<Seq<char>>::empty());
    } else {
        assert forall|i: int| 0 <= i < tags.len() implies !(#[trigger] tags[i]).contains(',') by {
            assert(form_safe_tag(tags[i]));
        }
        lemma_split_joined(tags);
        let pieces = split_on(joined(tags, tag_separator()), ',');
        let trimmed = pieces.map_values(trimmed_piece());
        assert forall|i: int| 0 <= i < tags.len() implies trimmed[i] == tags[i] by {
            assert(form_safe_tag(tags[i]));
            if i > 0 {
                let p = seq![' '] + tags[i];
                assert(is_white_space(p[0]));
                assert(p.drop_first() =~= tags[i]);
                assert(trim_front(p) == trim_front(tags[i]));
            }
        }
        assert(trimmed =~= tags);
        lemma_filter_all(tags);
    }
}


/// `part` occurs in `text`.
pub open spec fn mentions(text: Seq<char>, part: Seq<char>) -> bool {
    exists|k: int| 0 <= k && k + part.len() <= text.len() && #[trigger] text.subrange(k, k + part.len()) == part
}

/// The condition that keeps deleted documents out of a read.
pub open spec fn live_only() -> Seq<char> {
    "is_deleted = 0"@
}

/// What a delete writes.
pub open spec fn marks_deleted() -> Seq<char> {
    "is_deleted = 1"@
}

/// Soft deletes, as the statement texts show them: the delete statement sets
/// `is_deleted = 1` on a row still holding `is_deleted = 0` (so a second
/// delete changes no row), and every statement that reads documents (by id, by
/// content hash, the search's count and pages, the statistics' latest
/// update) holds the condition `is_deleted = 0`.
pub proof fn law_reads_hold_the_live_condition(query: Seq<char>, tags: Seq<Seq<char>>)
    ensures
        mentions(crate::sql::DELETE_DOCUMENT_SQL@, marks_deleted()),
        mentions(crate::sql::DELETE_DOCUMENT_SQL@, live_only()),
        mentions(crate::sql::GET_DOCUMENT_SQL@, live_only()),
        mentions(crate::sql::FIND_BY_HASH_SQL@, live_only()),
        mentions(crate::sql::LAST_UPDATED_SQL@, live_only()),
        mentions(count_query_sql(query, tags), live_only()),
        mentions(page_query_sql(query, tags), live_only()),
{
    reveal_strlit("is_deleted = 0");
    reveal_strlit("is_deleted = 1");
    reveal_strlit("SELECT COUNT(*) FROM documents WHERE is_deleted = 0");
    assert(crate::sql::COUNT_LIVE_SQL@ == "SELECT COUNT(*) FROM documents WHERE is_deleted = 0"@);
    assert(crate::sql::COUNT_LIVE_SQL@.subrange(37, (37 + live_only().len()) as int) =~= live_only());
    reveal_strlit("SELECT id, title, content, content_hash, tags, metadata, created_at, updated_at FROM documents WHERE is_deleted = 0");
    assert(crate::sql::SELECT_LIVE_SQL@ == "SELECT id, title, content, content_hash, tags, metadata, created_at, updated_at FROM documents WHERE is_deleted = 0"@);
    assert(crate::sql::SELECT_LIVE_SQL@.subrange(101, (101 + live_only().len()) as int) =~= live_only());
    reveal_strlit("SELECT id, title, content, content_hash, tags, metadata, created_at, updated_at FROM documents WHERE id = ? AND is_deleted = 0");
    assert(crate::sql::GET_DOCUMENT_SQL@ == "SELECT id, title, content, content_hash, tags, metadata, created_at, updated_at FROM documents WHERE id = ? AND is_deleted = 0"@);
    assert(crate::sql::GET_DOCUMENT_SQL@.subrange(112, (112 + live_only().len()) as int) =~= live_only());
    reveal_strlit("SELECT id, title, content, content_hash, tags, metadata, created_at, updated_at FROM documents WHERE content_hash = ? AND is_deleted = 0");
    assert(crate::sql::FIND_BY_HASH_SQL@ == "SELECT id, title, content, content_hash, tags, metadata, created_at, updated_at FROM documents WHERE content_hash = ? AND is_deleted = 0"@);
    assert(crate::sql::FIND_BY_HASH_SQL@.subrange(122, (122 + live_only().len()) as int) =~= live_only());
    reveal_strlit("SELECT MAX(updated_at) FROM documents WHERE is_deleted = 0");
    assert(crate::sql::LAST_UPDATED_SQL@ == "SELECT MAX(updated_at) FROM documents WHERE is_deleted = 0"@);
    assert(crate::sql::LAST_UPDATED_SQL@.subrange(44, (44 + live_only().len()) as int) =~= live_only());
    reveal_strlit("UPDATE documents SET is_deleted = 1, updated_at = ? WHERE id = ? AND is_deleted = 0");
    assert(crate::sql::DELETE_DOCUMENT_SQL@ == "UPDATE documents SET is_deleted = 1, updated_at = ? WHERE id = ? AND is_deleted = 0"@);
    assert(crate::sql::DELETE_DOCUMENT_SQL@.subrange(21, (21 + marks_deleted().len()) as int) =~= marks_deleted());
    assert(crate::sql::DELETE_DOCUMENT_SQL@.subrange(69, (69 + live_only().len()) as int) =~= live_only());
    let c = count_query_sql(query, tags);
    assert(c.subrange(37, (37 + live_only().len()) as int) =~= COUNT_LIVE_SQL@.subrange(37, (37 + live_only().len()) as int));
    let p = page_query_sql(query, tags);
    assert(p.subrange(101, (101 + live_only().len()) as int) =~= SELECT_LIVE_SQL@.subrange(101, (101 + live_only().len()) as int));
}

} // verus!
