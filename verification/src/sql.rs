//! SQL statements over the `documents` table, and the dynamic search query
//! assembled with `sqlx::QueryBuilder`.
//!
//! Every read filters on `is_deleted = 0`: a deleted document stays in the
//! table (soft delete) but is never returned.
use sqlx::{QueryBuilder, Sqlite};
use vstd::prelude::*;

verus! {

/// A query under construction: `sqlx::QueryBuilder` for SQLite, held in a
/// struct of its own because the builder's type is generic over `sqlx`'s
/// database trait; its text and arguments are known through `builder_sql` and
/// `builder_args`. `builder` is what the caller runs once the query is
/// complete; it is a public field because the builder's type, bound by
/// `sqlx`'s database trait, cannot stand in a signature of this library, so no
/// method can hand it out. The functions here only read and extend it.
#[verifier::external_body]
pub struct SqlQuery {
    pub builder: QueryBuilder<Sqlite>,
}

/// The SQL text a query builder holds so far.
pub uninterp spec fn builder_sql(b: SqlQuery) -> Seq<char>;

/// The arguments bound so far, in order: `(true, text, 0)` for a text
/// argument, `(false, empty, value)` for an integer argument.
pub uninterp spec fn builder_args(b: SqlQuery) -> Seq<(bool, Seq<char>, i64)>;

/// The builder still holds its arguments (it has not been built) and its text
/// is not shared, so that `push` and `push_bind` do not panic.
pub uninterp spec fn builder_open(b: SqlQuery) -> bool;

pub open spec fn text_arg(s: Seq<char>) -> (bool, Seq<char>, i64) {
    (true, s, 0i64)
}

pub open spec fn int_arg(v: i64) -> (bool, Seq<char>, i64) {
    (false, Seq::empty(), v)
}

/// SQLite's placeholder, which `push_bind` writes for each argument.
pub open spec fn placeholder() -> Seq<char> {
    seq!['?']
}

/// Calls `QueryBuilder::<Sqlite>::new`: the builder starts with `init` as its
/// text and no arguments.
#[verifier::external_body]
pub fn new_builder(init: &str) -> (b: SqlQuery)
    ensures
        builder_sql(b) == init@,
        builder_args(b) == Seq::<(bool, Seq<char>, i64)>::empty(),
        builder_open(b),
{
    SqlQuery { builder: QueryBuilder::new(init) }
}

/// Calls `QueryBuilder::push`, which appends `sql` (its `Display` text) to
/// the query.
#[verifier::external_body]
pub fn push_sql(b: &mut SqlQuery, sql: &str)
    requires
        builder_open(*old(b)),
    ensures
        builder_sql(*final(b)) == builder_sql(*old(b)) + sql@,
        builder_args(*final(b)) == builder_args(*old(b)),
        builder_open(*final(b)),
{
    b.builder.push(sql);
}

/// Calls `QueryBuilder::push_bind` with a text argument: the argument is
/// added and SQLite's placeholder `?` is appended to the query.
#[verifier::external_body]
pub fn push_bind_text(b: &mut SqlQuery, value: String)
    requires
        builder_open(*old(b)),
    ensures
        builder_sql(*final(b)) == builder_sql(*old(b)) + placeholder(),
        builder_args(*final(b)) == builder_args(*old(b)).push(text_arg(value@)),
        builder_open(*final(b)),
{
    b.builder.push_bind(value);
}

/// Calls `QueryBuilder::push_bind` with an integer argument: the argument is
/// added and SQLite's placeholder `?` is appended to the query.
#[verifier::external_body]
pub fn push_bind_int(b: &mut SqlQuery, value: i64)
    requires
        builder_open(*old(b)),
    ensures
        builder_sql(*final(b)) == builder_sql(*old(b)) + placeholder(),
        builder_args(*final(b)) == builder_args(*old(b)).push(int_arg(value)),
        builder_open(*final(b)),
{
    b.builder.push_bind(value);
}

} // verus!

verus! {

/// Columns selected for every document read, in the order of `DocumentRow`.
pub const SELECT_COLUMNS: &'static str = "id, title, content, content_hash, tags, metadata, created_at, updated_at";

/// Counts the documents that are not deleted.
pub const COUNT_LIVE_SQL: &'static str = "SELECT COUNT(*) FROM documents WHERE is_deleted = 0";

/// Start of the paginated search: every column, documents that are not deleted.
pub const SELECT_LIVE_SQL: &'static str = "SELECT id, title, content, content_hash, tags, metadata, created_at, updated_at FROM documents WHERE is_deleted = 0";

/// Restricts to documents whose full-text index matches the next argument.
pub const FTS_FILTER_SQL: &'static str = " AND id IN (SELECT id FROM documents_fts WHERE documents_fts MATCH ";

pub const CLOSE_SQL: &'static str = ")";

/// Restricts to documents whose JSON tag list matches the next argument.
pub const TAG_FILTER_SQL: &'static str = " AND tags LIKE ";

pub const ORDER_LIMIT_SQL: &'static str = " ORDER BY updated_at DESC LIMIT ";

pub const OFFSET_SQL: &'static str = " OFFSET ";

/// A live document by id.
pub const GET_DOCUMENT_SQL: &'static str = "SELECT id, title, content, content_hash, tags, metadata, created_at, updated_at FROM documents WHERE id = ? AND is_deleted = 0";

/// A live document with the given content hash.
pub const FIND_BY_HASH_SQL: &'static str = "SELECT id, title, content, content_hash, tags, metadata, created_at, updated_at FROM documents WHERE content_hash = ? AND is_deleted = 0";

/// Inserts a document row: id, title, content, content_hash, tags, metadata,
/// created_at, updated_at.
pub const INSERT_DOCUMENT_SQL: &'static str = "INSERT INTO documents (id, title, content, content_hash, tags, metadata, created_at, updated_at) VALUES (?, ?, ?, ?, ?, ?, ?, ?)";

/// Rewrites a document row: title, content, content_hash, tags, metadata,
/// updated_at, then the id.
pub const UPDATE_DOCUMENT_SQL: &'static str = "UPDATE documents SET title = ?, content = ?, content_hash = ?, tags = ?, metadata = ?, updated_at = ? WHERE id = ?";

/// Soft delete: marks the live row deleted and stamps it; arguments
/// updated_at, id. A missing or already deleted document changes no row.
pub const DELETE_DOCUMENT_SQL: &'static str = "UPDATE documents SET is_deleted = 1, updated_at = ? WHERE id = ? AND is_deleted = 0";

/// Counts the links between documents.
pub const COUNT_LINKS_SQL: &'static str = "SELECT COUNT(*) FROM document_links";

/// The size of the database file in bytes.
pub const DATABASE_SIZE_SQL: &'static str = "SELECT page_count * page_size FROM pragma_page_count(), pragma_page_size()";

/// The latest update time among live documents.
pub const LAST_UPDATED_SQL: &'static str = "SELECT MAX(updated_at) FROM documents WHERE is_deleted = 0";

/// The LIKE pattern that finds a tag inside a JSON list of strings:
/// the tag between double quotes, with any text around it.
pub open spec fn tag_pattern_of(tag: Seq<char>) -> Seq<char> {
    seq!['%', '"'] + tag + seq!['"', '%']
}

/// The tags a search filters on: none when the list is absent or empty.
pub open spec fn effective_tags(tags: Option<Seq<Seq<char>>>) -> Seq<Seq<char>> {
    match tags {
        Some(t) => t,
        None => Seq::empty(),
    }
}

/// The SQL appended for the tag filters.
pub open spec fn tag_filters_sql(tags: Seq<Seq<char>>) -> Seq<char>
    decreases tags.len(),
{
    if tags.len() == 0 {
        Seq::empty()
    } else {
        tag_filters_sql(tags.drop_last()) + TAG_FILTER_SQL@ + placeholder()
    }
}

/// The arguments bound for the tag filters.
pub open spec fn tag_filters_args(tags: Seq<Seq<char>>) -> Seq<(bool, Seq<char>, i64)> {
    tags.map_values(|t: Seq<char>| text_arg(tag_pattern_of(t)))
}

/// The SQL appended for a search's filters: the full-text match when the
/// query is not empty, then one LIKE per tag.
pub open spec fn filters_sql(query: Seq<char>, tags: Seq<Seq<char>>) -> Seq<char> {
    (if query.len() == 0 {
        Seq::empty()
    } else {
        FTS_FILTER_SQL@ + placeholder() + CLOSE_SQL@
    }) + tag_filters_sql(tags)
}

/// The arguments of a search's filters, in the order of their placeholders.
pub open spec fn filters_args(query: Seq<char>, tags: Seq<Seq<char>>) -> Seq<(bool, Seq<char>, i64)> {
    (if query.len() == 0 {
        Seq::empty()
    } else {
        seq![text_arg(query)]
    }) + tag_filters_args(tags)
}

/// The text of the search's count query.
pub open spec fn count_query_sql(query: Seq<char>, tags: Seq<Seq<char>>) -> Seq<char> {
    COUNT_LIVE_SQL@ + filters_sql(query, tags)
}

/// The text of the search's page query.
pub open spec fn page_query_sql(query: Seq<char>, tags: Seq<Seq<char>>) -> Seq<char> {
    SELECT_LIVE_SQL@ + filters_sql(query, tags) + ORDER_LIMIT_SQL@ + placeholder() + OFFSET_SQL@
        + placeholder()
}

/// The arguments of the search's page query.
pub open spec fn page_query_args(
    query: Seq<char>,
    tags: Seq<Seq<char>>,
    limit: usize,
    offset: usize,
) -> Seq<(bool, Seq<char>, i64)> {
    filters_args(query, tags).push(int_arg(limit as i64)).push(int_arg(offset as i64))
}

pub open spec fn string_views(v: Seq<String>) -> Seq<Seq<char>> {
    v.map_values(|s: String| s@)
}

/// The LIKE pattern for a tag: `%"tag"%`.
pub fn tag_pattern(tag: &str) -> (r: String)
    ensures
        r@ == tag_pattern_of(tag@),
{
    let mut r = String::new();
    r.append("%\"");
    r.append(tag);
    r.append("\"%");
    proof {
        reveal_strlit("%\"");
        reveal_strlit("\"%");
        assert(r@ =~= tag_pattern_of(tag@));
    }
    r
}

/// Appends the filters of a search to a query.
fn push_filters(b: &mut SqlQuery, query: &str, tags: &[String])
    requires
        builder_open(*old(b)),
    ensures
        builder_open(*final(b)),
        builder_sql(*final(b)) == builder_sql(*old(b)) + filters_sql(query@, string_views(tags@)),
        builder_args(*final(b)) == builder_args(*old(b)) + filters_args(query@, string_views(tags@)),
{
    let ghost sql0 = builder_sql(*b);
    let ghost args0 = builder_args(*b);
    if !query.is_empty() {
        push_sql(b, FTS_FILTER_SQL);
        push_bind_text(b, query.to_string());
        push_sql(b, CLOSE_SQL);
    }
    let ghost sql1 = builder_sql(*b);
    let ghost args1 = builder_args(*b);
    proof {
        broadcast use vstd::string::to_string_from_display_ensures_for_str;
        if query@.len() == 0 {
            assert(sql1 =~= sql0 + Seq::<char>::empty());
            assert(args1 =~= args0 + Seq::<(bool, Seq<char>, i64)>::empty());
        } else {
            assert(sql1 =~= sql0 + (FTS_FILTER_SQL@ + placeholder() + CLOSE_SQL@));
            assert(args1 =~= args0 + seq![text_arg(query@)]);
        }
    }
    let n = tags.len();
    let mut i: usize = 0;
    while i < n
        invariant
            n == tags@.len(),
            0 <= i <= n,
            builder_open(*b),
            builder_sql(*b) == sql1 + tag_filters_sql(string_views(tags@).take(i as int)),
            builder_args(*b) == args1 + tag_filters_args(string_views(tags@).take(i as int)),
        decreases n - i,
    {
        push_sql(b, TAG_FILTER_SQL);
        let pattern = tag_pattern(tags[i].as_str());
        push_bind_text(b, pattern);
        proof {
            let views = string_views(tags@);
            assert(views.take(i + 1).drop_last() =~= views.take(i as int));
            assert(tag_filters_args(views.take(i + 1)) =~= tag_filters_args(views.take(i as int)).push(
                text_arg(tag_pattern_of(tags@[i as int]@)),
            ));
        }
        i = i + 1;
    }
    proof {
        assert(string_views(tags@).take(n as int) =~= string_views(tags@));
    }
}

/// The tags a search filters on, as a slice: the given list, or none.
fn tag_slice(tags: Option<&[String]>) -> (r: &[String])
    ensures
        r@ == (match tags {
            Some(t) => t@,
            None => Seq::empty(),
        }),
{
    match tags {
        Some(t) => t,
        None => &[],
    }
}

/// The query counting every live document that matches a search (the total
/// for pagination): the full-text match when `query` is not empty, and every
/// tag of `tags`.
pub fn search_count_query(query: &str, tags: Option<&[String]>) -> (r: SqlQuery)
    ensures
        builder_open(r),
        builder_sql(r) == count_query_sql(query@, string_views(tag_slice_view(tags))),
        builder_args(r) == filters_args(query@, string_views(tag_slice_view(tags))),
{
    let mut b = new_builder(COUNT_LIVE_SQL);
    let t = tag_slice(tags);
    push_filters(&mut b, query, t);
    proof {
        assert(builder_args(b) =~= filters_args(query@, string_views(t@)));
    }
    b
}

/// How a page query ends: the order, then `LIMIT ?` and `OFFSET ?`.
pub open spec fn page_tail() -> Seq<char> {
    ORDER_LIMIT_SQL@ + placeholder() + OFFSET_SQL@ + placeholder()
}

/// The query reading one page of a search: live documents that match, most
/// recently updated first, `limit` of them after skipping `offset`.
pub fn search_page_query(query: &str, tags: Option<&[String]>, limit: usize, offset: usize) -> (r:
    SqlQuery)
    ensures
        builder_open(r),
        builder_sql(r) == page_query_sql(query@, string_views(tag_slice_view(tags))),
        builder_args(r) == page_query_args(query@, string_views(tag_slice_view(tags)), limit, offset),
        builder_args(r).len() >= 2,
        builder_args(r)[builder_args(r).len() - 2] == int_arg(limit as i64),
        builder_args(r)[builder_args(r).len() - 1] == int_arg(offset as i64),
        builder_sql(r).len() >= page_tail().len(),
        builder_sql(r).subrange(builder_sql(r).len() - page_tail().len(), builder_sql(r).len() as int)
            == page_tail(),
{
    let mut b = new_builder(SELECT_LIVE_SQL);
    let t = tag_slice(tags);
    push_filters(&mut b, query, t);
    push_sql(&mut b, ORDER_LIMIT_SQL);
    let ghost before_limit = builder_sql(b);
    push_bind_int(&mut b, limit as i64);
    push_sql(&mut b, OFFSET_SQL);
    push_bind_int(&mut b, offset as i64);
    proof {
        let body = before_limit.subrange(0, before_limit.len() - ORDER_LIMIT_SQL@.len());
        assert(builder_sql(b) =~= body + page_tail());
        assert(builder_sql(b).subrange(
            builder_sql(b).len() - page_tail().len(),
            builder_sql(b).len() as int,
        ) =~= page_tail());
        assert(builder_sql(b) =~= page_query_sql(query@, string_views(t@)));
        assert(builder_args(b) =~= page_query_args(query@, string_views(t@), limit, offset));
    }
    b
}

pub open spec fn tag_slice_view(tags: Option<&[String]>) -> Seq<String> {
    match tags {
        Some(t) => t@,
        None => Seq::empty(),
    }
}

} // verus!
