//! String operations that the search and the forms rely on (substring
//! search, char boundaries, trimming, splitting, joining, decimal texts), and
//! the byte-level notions they are stated over; lowercasing is std's, behind a
//! wrapper.
use vstd::prelude::*;
use vstd::utf8::*;

verus! {

broadcast use {encode_utf8_valid_utf8, is_char_boundary_start_end_of_seq};

/// The UTF-8 bytes of a text.
pub open spec fn bytes_of(s: Seq<char>) -> Seq<u8> {
    encode_utf8(s)
}

/// The largest char boundary of `bytes` that is not above `index`
/// (the length when `index` is past the end).
pub open spec fn floor_boundary(bytes: Seq<u8>, index: int) -> int
    decreases index,
{
    if index >= bytes.len() {
        bytes.len() as int
    } else if index <= 0 {
        0
    } else if is_char_boundary(bytes, index) {
        index
    } else {
        floor_boundary(bytes, index - 1)
    }
}

/// The smallest char boundary of `bytes` that is not below `index`
/// (the length when `index` is past the end).
pub open spec fn ceil_boundary(bytes: Seq<u8>, index: int) -> int
    decreases bytes.len() - index,
{
    if index >= bytes.len() {
        bytes.len() as int
    } else if index <= 0 {
        0
    } else if is_char_boundary(bytes, index) {
        index
    } else {
        ceil_boundary(bytes, index + 1)
    }
}

/// `needle` occurs in `haystack` at byte position `pos`.
pub open spec fn occurs_at(haystack: Seq<u8>, needle: Seq<u8>, pos: int) -> bool {
    0 <= pos && pos + needle.len() <= haystack.len() && haystack.subrange(pos, pos + needle.len())
        == needle
}

/// The first position at or after `from` where `needle` occurs in `haystack`.
pub open spec fn find_from(haystack: Seq<u8>, needle: Seq<u8>, from: int) -> Option<int>
    decreases haystack.len() + 1 - from,
{
    if from < 0 || from + needle.len() > haystack.len() {
        None
    } else if occurs_at(haystack, needle, from) {
        Some(from)
    } else {
        find_from(haystack, needle, from + 1)
    }
}

/// The byte position of the first occurrence of `needle` in `haystack`.
pub open spec fn find_first(haystack: Seq<u8>, needle: Seq<u8>) -> Option<int> {
    find_from(haystack, needle, 0)
}

/// What `str::to_lowercase` returns for a text (Unicode lowercase mapping).
pub uninterp spec fn lowercase_of(s: Seq<char>) -> Seq<char>;

/// Calls `str::to_lowercase`. The result is named by `lowercase_of`; like
/// every `String` it holds at most `isize::MAX` bytes (std's allocation limit),
/// which is also stated.
#[verifier::external_body]
pub fn to_lowercase(s: &str) -> (r: String)
    ensures
        r@ == lowercase_of(s@),
        bytes_of(r@).len() <= isize::MAX,
{
    s.to_lowercase()
}

/// Whether `needle` occurs in `haystack` at byte position `pos`.
fn bytes_match_at(haystack: &[u8], needle: &[u8], pos: usize) -> (r: bool)
    requires
        pos + needle@.len() <= haystack@.len(),
    ensures
        r == occurs_at(haystack@, needle@, pos as int),
{
    let hl = haystack.len();
    let mut k: usize = 0;
    while k < needle.len()
        invariant
            hl == haystack@.len(),
            pos + needle@.len() <= haystack@.len(),
            0 <= k <= needle@.len(),
            haystack@.subrange(pos as int, pos + k) == needle@.subrange(0, k as int),
        decreases needle@.len() - k,
    {
        if haystack[pos + k] != needle[k] {
            proof {
                let window = haystack@.subrange(pos as int, pos + needle@.len());
                assert(window[k as int] != needle@[k as int]);
                assert(window != needle@);
            }
            return false;
        }
        proof {
            assert(haystack@.subrange(pos as int, pos + k + 1) =~= haystack@.subrange(
                pos as int,
                pos + k,
            ).push(haystack@[pos + k]));
            assert(needle@.subrange(0, k + 1) =~= needle@.subrange(0, k as int).push(needle@[k as int]));
        }
        k = k + 1;
    }
    proof {
        assert(needle@.subrange(0, needle@.len() as int) =~= needle@);
    }
    true
}

/// The byte index of the first occurrence of `needle` in `haystack`, `None`
/// when it does not occur (as `str::find` with a string pattern).
pub fn find(haystack: &str, needle: &str) -> (r: Option<usize>)
    ensures
        r matches Some(p) ==> find_first(bytes_of(haystack@), bytes_of(needle@)) == Some(p as int),
        r is None ==> find_first(bytes_of(haystack@), bytes_of(needle@)) is None,
{
    let h = haystack.as_bytes();
    let nd = needle.as_bytes();
    let ghost hb = bytes_of(haystack@);
    let ghost nb = bytes_of(needle@);
    assert(h@ == hb);
    assert(nd@ == nb);
    if nd.len() > h.len() {
        return None;
    }
    let last = h.len() - nd.len();
    let mut pos: usize = 0;
    loop
        invariant
            hb == bytes_of(haystack@),
            nb == bytes_of(needle@),
            h@ == hb,
            nd@ == nb,
            last == hb.len() - nb.len(),
            pos <= last,
            find_first(hb, nb) == find_from(hb, nb, pos as int),
        decreases last - pos,
    {
        if bytes_match_at(h, nd, pos) {
            assert(find_from(hb, nb, pos as int) == Some(pos as int));
            return Some(pos);
        }
        if pos == last {
            assert(find_from(hb, nb, pos + 1) is None);
            return None;
        }
        pos = pos + 1;
    }
}

/// The closest char boundary not exceeding `index`, or the length when
/// `index` is past the end (as `str::floor_char_boundary`).
pub fn floor_char_boundary(s: &str, index: usize) -> (r: usize)
    ensures
        r as int == floor_boundary(bytes_of(s@), index as int),
{
    let n = s.as_bytes().len();
    let ghost b = bytes_of(s@);
    if index >= n {
        return n;
    }
    let mut i = index;
    while i > 0 && !s.is_char_boundary(i)
        invariant
            b == bytes_of(s@),
            n == b.len(),
            i <= index < n,
            floor_boundary(b, index as int) == floor_boundary(b, i as int),
        decreases i,
    {
        i = i - 1;
    }
    i
}

/// The closest char boundary not below `index`, or the length when `index`
/// is past the end (as `str::ceil_char_boundary`).
pub fn ceil_char_boundary(s: &str, index: usize) -> (r: usize)
    ensures
        r as int == ceil_boundary(bytes_of(s@), index as int),
{
    let n = s.as_bytes().len();
    let ghost b = bytes_of(s@);
    if index >= n {
        return n;
    }
    let mut i = index;
    while i < n && !s.is_char_boundary(i)
        invariant
            b == bytes_of(s@),
            n == b.len(),
            index <= i <= n,
            ceil_boundary(b, index as int) == ceil_boundary(b, i as int),
        decreases n - i,
    {
        i = i + 1;
    }
    i
}

/// The floor boundary is a char boundary within the text, not above the
/// index when the index is inside the text.
pub proof fn lemma_floor_boundary(bytes: Seq<u8>, index: int)
    requires
        valid_utf8(bytes),
    ensures
        0 <= floor_boundary(bytes, index) <= bytes.len(),
        0 <= index <= bytes.len() ==> floor_boundary(bytes, index) <= index,
        index >= bytes.len() ==> floor_boundary(bytes, index) == bytes.len(),
        is_char_boundary(bytes, floor_boundary(bytes, index)),
    decreases index,
{
    if index >= bytes.len() {
    } else if index <= 0 {
    } else if is_char_boundary(bytes, index) {
    } else {
        lemma_floor_boundary(bytes, index - 1);
    }
}

/// The ceil boundary is a char boundary within the text, not below the
/// index when the index is inside the text.
pub proof fn lemma_ceil_boundary(bytes: Seq<u8>, index: int)
    requires
        valid_utf8(bytes),
    ensures
        0 <= ceil_boundary(bytes, index) <= bytes.len(),
        index <= bytes.len() ==> index <= ceil_boundary(bytes, index),
        is_char_boundary(bytes, ceil_boundary(bytes, index)),
    decreases bytes.len() - index,
{
    if index >= bytes.len() {
    } else if index <= 0 {
    } else if is_char_boundary(bytes, index) {
    } else {
        lemma_ceil_boundary(bytes, index + 1);
    }
}

/// A position `find_from` returns is a match at or after the start.
pub proof fn lemma_find_from(haystack: Seq<u8>, needle: Seq<u8>, from: int)
    ensures
        find_from(haystack, needle, from) matches Some(p) ==> from <= p && occurs_at(
            haystack,
            needle,
            p,
        ),
    decreases haystack.len() + 1 - from,
{
    if from < 0 || from + needle.len() > haystack.len() {
    } else if occurs_at(haystack, needle, from) {
    } else {
        lemma_find_from(haystack, needle, from + 1);
    }
}

/// A boundary of a text stays a boundary of any prefix that extends past it.
pub proof fn lemma_boundary_in_prefix(bytes: Seq<u8>, index: int, end: int)
    requires
        valid_utf8(bytes),
        is_char_boundary(bytes, end),
        is_char_boundary(bytes, index),
        0 <= index <= end <= bytes.len(),
    ensures
        valid_utf8(bytes.subrange(0, end)),
        is_char_boundary(bytes.subrange(0, end), index),
{
    valid_utf8_split(bytes, end);
    let sub = bytes.subrange(0, end);
    if index < end {
        is_char_boundary_iff_not_is_continuation_byte(bytes, index);
        is_char_boundary_iff_not_is_continuation_byte(sub, index);
    } else {
        assert(sub.len() == end);
    }
}

/// The text made of the bytes of `s` between two of its char boundaries.
pub fn substring(s: &str, start: usize, end: usize) -> (r: &str)
    requires
        start <= end <= bytes_of(s@).len(),
        is_char_boundary(bytes_of(s@), start as int),
        is_char_boundary(bytes_of(s@), end as int),
    ensures
        bytes_of(r@) == bytes_of(s@).subrange(start as int, end as int),
        r@ == decode_utf8(bytes_of(s@).subrange(start as int, end as int)),
{
    proof {
        lemma_boundary_in_prefix(bytes_of(s@), start as int, end as int);
    }
    let (head, _) = s.split_at(end);
    let (_, mid) = head.split_at(start);
    proof {
        assert(bytes_of(mid@) =~= bytes_of(s@).subrange(start as int, end as int));
        encode_utf8_decode_utf8(mid@);
    }
    mid
}

} // verus!

verus! {

/// The Unicode `White_Space` property, which `char::is_whitespace` tests:
/// U+0009..U+000D, U+0020, U+0085, U+00A0, U+1680, U+2000..U+200A, U+2028,
/// U+2029, U+202F, U+205F and U+3000.
pub open spec fn is_white_space(c: char) -> bool {
    let v = c as u32;
    ||| 0x09 <= v <= 0x0d
    ||| v == 0x20
    ||| v == 0x85
    ||| v == 0xa0
    ||| v == 0x1680
    ||| 0x2000 <= v <= 0x200a
    ||| v == 0x2028
    ||| v == 0x2029
    ||| v == 0x202f
    ||| v == 0x205f
    ||| v == 0x3000
}

/// A text without its leading white space.
pub open spec fn trim_front(s: Seq<char>) -> Seq<char>
    decreases s.len(),
{
    if s.len() > 0 && is_white_space(s[0]) {
        trim_front(s.drop_first())
    } else {
        s
    }
}

/// A text without its trailing white space.
pub open spec fn trim_back(s: Seq<char>) -> Seq<char>
    decreases s.len(),
{
    if s.len() > 0 && is_white_space(s.last()) {
        trim_back(s.drop_last())
    } else {
        s
    }
}

/// A text without leading and trailing white space.
pub open spec fn trim_of(s: Seq<char>) -> Seq<char> {
    trim_back(trim_front(s))
}

/// Whether a character is white space (the Unicode `White_Space` property).
pub fn is_white_space_char(c: char) -> (r: bool)
    ensures
        r == is_white_space(c),
{
    let v = c as u32;
    (0x09 <= v && v <= 0x0d) || v == 0x20 || v == 0x85 || v == 0xa0 || v == 0x1680 || (0x2000 <= v
        && v <= 0x200a) || v == 0x2028 || v == 0x2029 || v == 0x202f || v == 0x205f || v == 0x3000
}

/// The characters of a text, in order.
fn chars_of(s: &str) -> (r: Vec<char>)
    ensures
        r@ == s@,
{
    broadcast use vstd::string::axiom_spec_iter;

    let mut r: Vec<char> = Vec::new();
    for c in it: s.chars()
        invariant
            it.seq() == s@,
            r@ == s@.take(it.index() as int),
    {
        proof {
            assert(s@.take(it.index() + 1) =~= s@.take(it.index() as int).push(c));
        }
        r.push(c);
    }
    proof {
        assert(s@.take(s@.len() as int) =~= s@);
    }
    r
}

/// Skipping white space at the front of a text from position `i` on leaves
/// what trimming the front leaves, when all before `i` is white space.
proof fn lemma_trim_front_from(s: Seq<char>, i: int)
    requires
        0 <= i <= s.len(),
        forall|k: int| 0 <= k < i ==> is_white_space(#[trigger] s[k]),
    ensures
        trim_front(s) == trim_front(s.subrange(i, s.len() as int)),
    decreases i,
{
    if i > 0 {
        assert forall|k: int| 0 <= k < i - 1 implies is_white_space(#[trigger] s.drop_first()[k]) by {
            assert(s.drop_first()[k] == s[k + 1]);
        }
        lemma_trim_front_from(s.drop_first(), i - 1);
        assert(is_white_space(s[0]));
        assert(s.drop_first().subrange(i - 1, s.drop_first().len() as int) =~= s.subrange(
            i,
            s.len() as int,
        ));
    } else {
        assert(s.subrange(0, s.len() as int) =~= s);
    }
}

/// Likewise at the back: dropping white space after position `j` leaves what
/// trimming the back leaves.
proof fn lemma_trim_back_to(s: Seq<char>, j: int)
    requires
        0 <= j <= s.len(),
        forall|k: int| j <= k < s.len() ==> is_white_space(#[trigger] s[k]),
    ensures
        trim_back(s) == trim_back(s.subrange(0, j)),
    decreases s.len() - j,
{
    if j < s.len() {
        lemma_trim_back_to(s.drop_last(), j);
        assert(s.drop_last().subrange(0, j) =~= s.subrange(0, j));
    } else {
        assert(s.subrange(0, j) =~= s);
    }
}

/// The text without leading and trailing white space (as `str::trim`, whose
/// white space is the Unicode `White_Space` property).
pub fn trim(s: &str) -> (r: &str)
    ensures
        r@ == trim_of(s@),
{
    let cs = chars_of(s);
    let n = cs.len();
    let mut i: usize = 0;
    while i < n && is_white_space_char(cs[i])
        invariant
            cs@ == s@,
            n == s@.len(),
            0 <= i <= n,
            forall|k: int| 0 <= k < i ==> is_white_space(#[trigger] s@[k]),
        decreases n - i,
    {
        i = i + 1;
    }
    let ghost front = s@.subrange(i as int, n as int);
    proof {
        lemma_trim_front_from(s@, i as int);
        assert(i < n ==> !is_white_space(s@[i as int]));
        assert(trim_front(front) == front);
    }
    let mut j: usize = n;
    while j > i && is_white_space_char(cs[j - 1])
        invariant
            cs@ == s@,
            n == s@.len(),
            0 <= i <= j <= n,
            front == s@.subrange(i as int, n as int),
            forall|k: int| j - i <= k < front.len() ==> is_white_space(#[trigger] front[k]),
        decreases j - i,
    {
        j = j - 1;
    }
    proof {
        lemma_trim_back_to(front, j - i);
        let rest = front.subrange(0, j - i);
        assert(rest =~= s@.subrange(i as int, j as int));
        assert(j > i ==> !is_white_space(rest.last()));
        assert(trim_back(rest) == rest);
    }
    s.substring_char(i, j)
}

/// The pieces of a text between the occurrences of `sep` (as `str::split`
/// with a character: `n` separators give `n + 1` pieces, possibly empty).
pub open spec fn split_on(s: Seq<char>, sep: char) -> Seq<Seq<char>>
    decreases s.len(),
{
    if s.len() == 0 {
        seq![Seq::empty()]
    } else {
        let init = split_on(s.drop_last(), sep);
        if s.last() == sep {
            init.push(Seq::empty())
        } else {
            init.update(init.len() - 1, init.last().push(s.last()))
        }
    }
}

/// Splitting always gives at least one piece.
pub proof fn lemma_split_on_nonempty(s: Seq<char>, sep: char)
    ensures
        split_on(s, sep).len() >= 1,
    decreases s.len(),
{
    if s.len() > 0 {
        lemma_split_on_nonempty(s.drop_last(), sep);
    }
}

/// Splits a text at every occurrence of `sep`.
pub fn split_at_char(s: &str, sep: char) -> (r: Vec<String>)
    ensures
        r@.map_values(|p: String| p@) == split_on(s@, sep),
{
    broadcast use vstd::string::to_string_from_display_ensures_for_str;

    let cs = chars_of(s);
    let n = cs.len();
    let mut pieces: Vec<String> = Vec::new();
    let mut start: usize = 0;
    let mut k: usize = 0;
    proof {
        assert(s@.take(0) =~= Seq::<char>::empty());
        assert(s@.subrange(0, 0) =~= Seq::<char>::empty());
        assert(pieces@.map_values(|p: String| p@).push(Seq::<char>::empty()) =~= seq![
            Seq::<char>::empty(),
        ]);
    }
    while k < n
        invariant
            cs@ == s@,
            n == s@.len(),
            start <= k <= n,
            pieces@.map_values(|p: String| p@).push(s@.subrange(start as int, k as int)) == split_on(
                s@.take(k as int),
                sep,
            ),
        decreases n - k,
    {
        let c = cs[k];
        proof {
            assert(s@.take(k + 1).drop_last() =~= s@.take(k as int));
            assert(s@.take(k + 1).last() == c);
            lemma_split_on_nonempty(s@.take(k as int), sep);
        }
        if c == sep {
            let done = s.substring_char(start, k).to_string();
            pieces.push(done);
            start = k + 1;
            proof {
                assert(s@.subrange(start as int, k + 1) =~= Seq::<char>::empty());
                assert(pieces@.map_values(|p: String| p@).push(s@.subrange(start as int, k + 1))
                    =~= split_on(s@.take(k as int), sep).push(Seq::empty()));
            }
        } else {
            proof {
                let prev = split_on(s@.take(k as int), sep);
                assert(s@.subrange(start as int, k + 1) =~= s@.subrange(start as int, k as int).push(
                    c,
                ));
                assert(pieces@.map_values(|p: String| p@).push(s@.subrange(start as int, k + 1))
                    =~= prev.update(prev.len() - 1, prev.last().push(c)));
            }
        }
        k = k + 1;
    }
    let last = s.substring_char(start, n).to_string();
    pieces.push(last);
    proof {
        assert(s@.take(n as int) =~= s@);
        assert(pieces@.map_values(|p: String| p@) =~= split_on(s@, sep));
    }
    pieces
}

} // verus!

verus! {

pub open spec fn digit_char(d: int) -> char {
    (d + 48) as char
}

/// The decimal digits of a natural number.
pub open spec fn decimal(n: nat) -> Seq<char>
    decreases n,
{
    if n < 10 {
        seq![digit_char(n as int)]
    } else {
        decimal(n / 10).push(digit_char((n % 10) as int))
    }
}

/// The decimal text of an integer, with a leading `-` when negative.
pub open spec fn signed_decimal(i: int) -> Seq<char> {
    if i < 0 {
        seq!['-'] + decimal((-i) as nat)
    } else {
        decimal(i as nat)
    }
}

/// The text of one decimal digit.
fn digit_text(d: u64) -> (r: &'static str)
    requires
        d < 10,
    ensures
        r@ == seq![digit_char(d as int)],
{
    match d {
        0 => {
            proof {
                reveal_strlit("0");
            }
            "0"
        },
        1 => {
            proof {
                reveal_strlit("1");
            }
            "1"
        },
        2 => {
            proof {
                reveal_strlit("2");
            }
            "2"
        },
        3 => {
            proof {
                reveal_strlit("3");
            }
            "3"
        },
        4 => {
            proof {
                reveal_strlit("4");
            }
            "4"
        },
        5 => {
            proof {
                reveal_strlit("5");
            }
            "5"
        },
        6 => {
            proof {
                reveal_strlit("6");
            }
            "6"
        },
        7 => {
            proof {
                reveal_strlit("7");
            }
            "7"
        },
        8 => {
            proof {
                reveal_strlit("8");
            }
            "8"
        },
        _ => {
            proof {
                reveal_strlit("9");
            }
            "9"
        },
    }
}

/// The decimal digits of a `u64`, most significant first.
pub fn u64_text(n: u64) -> (r: String)
    ensures
        r@ == decimal(n as nat),
    decreases n,
{
    if n < 10 {
        let mut r = String::new();
        r.append(digit_text(n));
        r
    } else {
        let mut r = u64_text(n / 10);
        r.append(digit_text(n % 10));
        r
    }
}

/// The decimal digits of a `usize` (as its `to_string`).
pub fn usize_text(n: usize) -> (r: String)
    ensures
        r@ == decimal(n as nat),
{
    u64_text(n as u64)
}

/// The decimal digits of a `u16` (as its `to_string`).
pub fn u16_text(n: u16) -> (r: String)
    ensures
        r@ == decimal(n as nat),
{
    u64_text(n as u64)
}

/// The decimal text of an `i64`, `-` first when negative (as its
/// `to_string`).
pub fn i64_text(n: i64) -> (r: String)
    ensures
        r@ == signed_decimal(n as int),
{
    if n < 0 {
        let magnitude: u64 = (-(n as i128)) as u64;
        let mut r = String::new();
        proof {
            reveal_strlit("-");
        }
        r.append("-");
        let digits = u64_text(magnitude);
        r.append(digits.as_str());
        r
    } else {
        u64_text(n as u64)
    }
}

/// The parts joined with `sep` between consecutive parts (as `join`).
pub open spec fn joined(parts: Seq<Seq<char>>, sep: Seq<char>) -> Seq<char>
    decreases parts.len(),
{
    if parts.len() == 0 {
        Seq::empty()
    } else if parts.len() == 1 {
        parts[0]
    } else {
        joined(parts.drop_last(), sep) + sep + parts.last()
    }
}

/// Joins texts with a separator between consecutive ones.
pub fn join_with(parts: &Vec<String>, sep: &str) -> (r: String)
    ensures
        r@ == joined(parts@.map_values(|p: String| p@), sep@),
{
    let ghost views = parts@.map_values(|p: String| p@);
    let mut r = String::new();
    let mut i: usize = 0;
    while i < parts.len()
        invariant
            0 <= i <= parts.len(),
            views == parts@.map_values(|p: String| p@),
            r@ == joined(views.take(i as int), sep@),
        decreases parts.len() - i,
    {
        proof {
            assert(views.take(i + 1).drop_last() =~= views.take(i as int));
            assert(views.take(i + 1).last() == parts@[i as int]@);
        }
        if i > 0 {
            r.append(sep);
        }
        r.append(parts[i].as_str());
        proof {
            if i == 0 {
                assert(views.take(1) =~= seq![parts@[0]@]);
                assert(r@ =~= parts@[0]@);
            }
        }
        i = i + 1;
    }
    proof {
        assert(views.take(parts@.len() as int) =~= views);
    }
    r
}

/// The first `n` characters of a text (all of it when shorter).
pub fn first_chars(s: &str, n: usize) -> (r: String)
    ensures
        r@ == s@.take(if n <= s@.len() { n as int } else { s@.len() as int }),
{
    broadcast use vstd::string::to_string_from_display_ensures_for_str;

    let cs = chars_of(s);
    let m = if n <= cs.len() {
        n
    } else {
        cs.len()
    };
    proof {
        assert(s@.subrange(0, m as int) =~= s@.take(m as int));
    }
    s.substring_char(0, m).to_string()
}

} // verus!

verus! {

/// In valid UTF-8 every four consecutive positions hold a char boundary (a
/// character takes at most four bytes).
pub proof fn lemma_boundary_within_four(bytes: Seq<u8>, k: int)
    requires
        valid_utf8(bytes),
        0 <= k <= bytes.len(),
    ensures
        exists|j: int| k <= j <= k + 3 && j <= bytes.len() && is_char_boundary(bytes, j),
    decreases bytes.len(),
{
    if k == 0 {
        assert(is_char_boundary(bytes, 0));
    } else if k + 3 >= bytes.len() {
        assert(is_char_boundary(bytes, bytes.len() as int));
    } else {
        let l = length_of_first_scalar(bytes);
        let tail = pop_first_scalar(bytes);
        assert(1 <= l <= 4);
        assert(tail.len() == bytes.len() - l);
        if k < l {
            assert(is_char_boundary(tail, 0));
            assert(is_char_boundary(bytes, l));
        } else {
            lemma_boundary_within_four(tail, k - l);
            let j = choose|j: int| k - l <= j <= k - l + 3 && j <= tail.len() && is_char_boundary(tail, j);
            assert(is_char_boundary(bytes, j + l));
        }
    }
}

proof fn lemma_floor_at_least(bytes: Seq<u8>, index: int, j: int)
    requires
        valid_utf8(bytes),
        0 <= j <= index <= bytes.len(),
        is_char_boundary(bytes, j),
    ensures
        floor_boundary(bytes, index) >= j,
    decreases index,
{
    if index >= bytes.len() {
    } else if index <= 0 {
    } else if is_char_boundary(bytes, index) {
    } else {
        lemma_floor_at_least(bytes, index - 1, j);
    }
}

proof fn lemma_ceil_at_most(bytes: Seq<u8>, index: int, j: int)
    requires
        valid_utf8(bytes),
        0 <= index <= j <= bytes.len(),
        is_char_boundary(bytes, j),
    ensures
        ceil_boundary(bytes, index) <= j,
    decreases bytes.len() - index,
{
    if index >= bytes.len() {
    } else if index <= 0 {
    } else if is_char_boundary(bytes, index) {
    } else {
        lemma_ceil_at_most(bytes, index + 1, j);
    }
}

/// Moving back to a char boundary goes back at most three bytes.
pub proof fn lemma_floor_boundary_near(bytes: Seq<u8>, index: int)
    requires
        valid_utf8(bytes),
        0 <= index <= bytes.len(),
    ensures
        floor_boundary(bytes, index) >= index - 3,
{
    lemma_floor_boundary(bytes, index);
    if index >= 3 {
        lemma_boundary_within_four(bytes, index - 3);
        let j = choose|j: int| index - 3 <= j <= index && j <= bytes.len() && is_char_boundary(bytes, j);
        lemma_floor_at_least(bytes, index, j);
    }
}

/// Moving forward to a char boundary goes forward at most three bytes.
pub proof fn lemma_ceil_boundary_near(bytes: Seq<u8>, index: int)
    requires
        valid_utf8(bytes),
        0 <= index <= bytes.len(),
    ensures
        ceil_boundary(bytes, index) <= index + 3,
{
    lemma_boundary_within_four(bytes, index);
    let j = choose|j: int| index <= j <= index + 3 && j <= bytes.len() && is_char_boundary(bytes, j);
    lemma_ceil_at_most(bytes, index, j);
}

} // verus!
