//! Excerpts shown with search results: a window of the content around the
//! first (case-insensitive) occurrence of the query.
use crate::text::{
    bytes_of, ceil_boundary, ceil_char_boundary, find, find_first, floor_boundary,
    floor_char_boundary, lemma_ceil_boundary, lemma_find_from, lemma_floor_boundary, lowercase_of,
    substring, to_lowercase,
};
use vstd::prelude::*;
use vstd::utf8::*;

verus! {

broadcast use {encode_utf8_valid_utf8, is_char_boundary_start_end_of_seq, encode_utf8_decode_utf8};

/// The number of bytes of content an excerpt is built around.
pub const EXCERPT_LENGTH: usize = 150;

pub open spec fn ellipsis() -> Seq<char> {
    seq!['.', '.', '.']
}

/// `a - b`, or 0 when `b` exceeds `a` (as `usize::saturating_sub`).
pub open spec fn saturating_sub(a: int, b: int) -> int {
    if a >= b {
        a - b
    } else {
        0
    }
}

pub open spec fn min_int(a: int, b: int) -> int {
    if a <= b {
        a
    } else {
        b
    }
}

/// Where the excerpt around a match at byte `pos` starts: `max_length / 2`
/// bytes before the match, moved back to a char boundary.
pub open spec fn window_start(bytes: Seq<u8>, pos: int, max_length: int) -> int {
    floor_boundary(bytes, saturating_sub(pos, max_length / 2))
}

/// Where the excerpt around a match at byte `pos` ends: `max_length / 2`
/// bytes after the match (clipped to the content), moved forward to a char
/// boundary.
pub open spec fn window_end(bytes: Seq<u8>, pos: int, query_len: int, max_length: int) -> int {
    ceil_boundary(bytes, min_int(pos + query_len + max_length / 2, bytes.len() as int))
}

/// The excerpt of `content` for a query, given the lowercased content, the
/// lowercased query and the byte length of the query as typed.
///
/// Content that fits in `max_length` bytes is returned whole. Otherwise, when
/// the lowercased query occurs in the lowercased content at byte `pos`, the
/// window runs from `pos - max_length/2` to `pos + query_len + max_length/2`,
/// widened to char boundaries and clipped to the content, with `...` on each
/// side that was cut. With no occurrence, the first `max_length` bytes
/// (widened to a char boundary) followed by `...`.
pub open spec fn excerpt_of(
    content: Seq<char>,
    content_lower: Seq<char>,
    query_lower: Seq<char>,
    query_len: int,
    max_length: int,
) -> Seq<char> {
    let bytes = bytes_of(content);
    if bytes.len() <= max_length {
        content
    } else {
        match find_first(bytes_of(content_lower), bytes_of(query_lower)) {
            Some(pos) => {
                let start = window_start(bytes, pos, max_length);
                let end = window_end(bytes, pos, query_len, max_length);
                let prefix = if start > 0 {
                    ellipsis()
                } else {
                    Seq::empty()
                };
                let suffix = if end < bytes.len() {
                    ellipsis()
                } else {
                    Seq::empty()
                };
                prefix + decode_utf8(bytes.subrange(start, end)) + suffix
            },
            None => {
                let end = ceil_boundary(bytes, max_length);
                decode_utf8(bytes.subrange(0, end)) + ellipsis()
            },
        }
    }
}

/// The excerpt of `content` around `query`, for content and query already
/// lowercased by the caller (`content_lower`, `query_lower`).
pub fn excerpt_around(
    content: &str,
    query: &str,
    content_lower: &str,
    query_lower: &str,
    max_length: usize,
) -> (r: String)
    requires
        bytes_of(content@).len() <= isize::MAX,
        bytes_of(content@).len() > max_length ==> bytes_of(content_lower@).len() + bytes_of(
            query@,
        ).len() + max_length / 2 <= usize::MAX,
    ensures
        r@ == excerpt_of(
            content@,
            content_lower@,
            query_lower@,
            bytes_of(query@).len() as int,
            max_length as int,
        ),
{
    broadcast use vstd::string::to_string_from_display_ensures_for_str;

    let content_len = content.len();
    if content_len <= max_length {
        return content.to_string();
    }
    let ghost bytes = bytes_of(content@);
    match find(content_lower, query_lower) {
        Some(pos) => {
            proof {
                lemma_find_from(bytes_of(content_lower@), bytes_of(query_lower@), 0);
            }
            let start = floor_char_boundary(content, pos.saturating_sub(max_length / 2));
            let reach = pos + query.len() + max_length / 2;
            let capped = if reach < content_len {
                reach
            } else {
                content_len
            };
            let end = ceil_char_boundary(content, capped);
            proof {
                lemma_floor_boundary(bytes, saturating_sub(pos as int, (max_length / 2) as int));
                lemma_ceil_boundary(bytes, capped as int);
            }
            let excerpt = substring(content, start, end);
            let mut r = String::new();
            if start > 0 {
                r.append("...");
            }
            r.append(excerpt);
            if end < content_len {
                r.append("...");
            }
            proof {
                reveal_strlit("...");
            }
            r
        },
        None => {
            let end = ceil_char_boundary(content, max_length);
            proof {
                lemma_ceil_boundary(bytes, max_length as int);
            }
            let head = substring(content, 0, end);
            let mut r = String::new();
            r.append(head);
            r.append("...");
            proof {
                reveal_strlit("...");
            }
            r
        },
    }
}

/// Extract a relevant excerpt from content around the first query match.
///
/// The match is found case-insensitively: in the lowercased content, for the
/// lowercased query.
pub fn extract_excerpt(content: &str, query: &str, max_length: usize) -> (r: String)
    requires
        bytes_of(content@).len() <= isize::MAX,
        bytes_of(content@).len() > max_length ==> bytes_of(query@).len() + max_length / 2
            <= usize::MAX - isize::MAX,
    ensures
        r@ == excerpt_of(
            content@,
            lowercase_of(content@),
            lowercase_of(query@),
            bytes_of(query@).len() as int,
            max_length as int,
        ),
{
    broadcast use vstd::string::to_string_from_display_ensures_for_str;

    if content.len() <= max_length {
        return content.to_string();
    }
    let query_lower = to_lowercase(query);
    let content_lower = to_lowercase(content);
    excerpt_around(content, query, content_lower.as_str(), query_lower.as_str(), max_length)
}

} // verus!
