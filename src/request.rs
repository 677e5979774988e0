use vstd::prelude::*;
use vstd::string::StringSliceAdditionalSpecFns;

verus! {

broadcast use vstd::utf8::group_utf8_lib;

/// The bytes of an ASCII text, one per character.
pub open spec fn ascii(p: Seq<char>) -> Seq<u8> {
    Seq::new(p.len(), |i: int| p[i] as u8)
}

/// `s` begins with `p`.
pub open spec fn has_prefix(s: Seq<u8>, p: Seq<u8>) -> bool {
    p.len() <= s.len() && s.subrange(0, p.len() as int) == p
}

/// Tests whether `s` begins with `p`.
pub fn starts_with_bytes(s: &[u8], p: &[u8]) -> (r: bool)
    ensures
        r == has_prefix(s@, p@),
{
    if p.len() > s.len() {
        return false;
    }
    let mut i: usize = 0;
    while i < p.len()
        invariant
            p@.len() <= s@.len(),
            i <= p@.len(),
            forall|j: int| 0 <= j < i ==> s@[j] == p@[j],
        decreases p@.len() - i,
    {
        if s[i] != p[i] {
            assert(s@.subrange(0, p@.len() as int)[i as int] != p@[i as int]);
            return false;
        }
        i = i + 1;
    }
    assert(s@.subrange(0, p@.len() as int) =~= p@);
    true
}

/// The bytes of a text literal made of ASCII characters are those characters.
proof fn lemma_ascii_literal(t: &str)
    requires
        vstd::utf8::is_ascii_chars(t@),
    ensures
        t.spec_bytes() == ascii(t@),
{
    vstd::string::is_ascii_spec_bytes(t);
    assert(t.spec_bytes() =~= ascii(t@));
}

/// Tests whether `request` begins with the ASCII text `p`.
fn starts_with_text(request: &str, p: &str) -> (r: bool)
    requires
        vstd::utf8::is_ascii_chars(p@),
    ensures
        r == has_prefix(request.spec_bytes(), ascii(p@)),
{
    proof {
        lemma_ascii_literal(p);
    }
    starts_with_bytes(request.as_bytes(), p.as_bytes())
}

/// The handler a request goes to.
#[derive(Clone, Copy, Debug, PartialEq, Eq, Structural)]
pub enum Route {
    Register,
    Login,
    GetUser,
    GetAllUsers,
    UpdateUser,
    DeleteUser,
    Unknown,
}

/// Which route a request takes: the first of the method and path prefixes that
/// the request begins with, the parameterized `GET /users/` before the
/// collection `GET /users`.
pub open spec fn route_of(b: Seq<u8>) -> Route {
    if has_prefix(b, ascii("POST /register"@)) {
        Route::Register
    } else if has_prefix(b, ascii("POST /login"@)) {
        Route::Login
    } else if has_prefix(b, ascii("GET /users/"@)) {
        Route::GetUser
    } else if has_prefix(b, ascii("GET /users"@)) {
        Route::GetAllUsers
    } else if has_prefix(b, ascii("PUT /users/"@)) {
        Route::UpdateUser
    } else if has_prefix(b, ascii("DELETE /users/"@)) {
        Route::DeleteUser
    } else {
        Route::Unknown
    }
}

/// Picks the handler for a raw request.
pub fn route(request: &str) -> (r: Route)
    ensures
        r == route_of(request.spec_bytes()),
{
    proof {
        reveal_strlit("POST /register");
        reveal_strlit("POST /login");
        reveal_strlit("GET /users/");
        reveal_strlit("GET /users");
        reveal_strlit("PUT /users/");
        reveal_strlit("DELETE /users/");
    }
    if starts_with_text(request, "POST /register") {
        Route::Register
    } else if starts_with_text(request, "POST /login") {
        Route::Login
    } else if starts_with_text(request, "GET /users/") {
        Route::GetUser
    } else if starts_with_text(request, "GET /users") {
        Route::GetAllUsers
    } else if starts_with_text(request, "PUT /users/") {
        Route::UpdateUser
    } else if starts_with_text(request, "DELETE /users/") {
        Route::DeleteUser
    } else {
        Route::Unknown
    }
}

/// An ASCII whitespace byte: one that ends a whitespace-delimited token.
pub open spec fn is_space(c: u8) -> bool {
    c == 32 || c == 9 || c == 10 || c == 11 || c == 12 || c == 13
}

/// The first index at or after `from` that holds a slash, or the length.
pub open spec fn next_slash(b: Seq<u8>, from: int) -> int
    decreases b.len() - from,
{
    if from >= b.len() {
        b.len() as int
    } else if b[from] == 47 {
        from
    } else {
        next_slash(b, from + 1)
    }
}

/// The first index in `from..to` whose byte is (`space`) or is not (`!space`)
/// whitespace, or `to`.
pub open spec fn next_where(b: Seq<u8>, from: int, to: int, space: bool) -> int
    decreases to - from,
{
    if from >= to {
        to
    } else if is_space(b[from]) == space {
        from
    } else {
        next_where(b, from + 1, to, space)
    }
}

/// Where the third slash-delimited segment of `b` starts, if `b` has two slashes.
pub open spec fn segment_start(b: Seq<u8>) -> Option<int> {
    let first = next_slash(b, 0);
    if first >= b.len() {
        None
    } else {
        let second = next_slash(b, first + 1);
        if second >= b.len() {
            None
        } else {
            Some(second + 1)
        }
    }
}

/// The bounds of the identifier token of a request: the first whitespace-delimited
/// token of its third slash-delimited segment; empty where there is none.
pub open spec fn id_bounds(b: Seq<u8>) -> (int, int) {
    match segment_start(b) {
        None => (0, 0),
        Some(start) => {
            let end = next_slash(b, start);
            let first = next_where(b, start, end, false);
            (first, next_where(b, first, end, true))
        },
    }
}

/// A blank line (`\r\n\r\n`) starts at index `i`.
pub open spec fn is_blank_line_at(b: Seq<u8>, i: int) -> bool {
    0 <= i && i + 4 <= b.len() && b[i] == 13 && b[i + 1] == 10 && b[i + 2] == 13 && b[i + 3]
        == 10
}

/// The first index at or after `from` where a blank line (`\r\n\r\n`) starts.
pub open spec fn next_blank_line(b: Seq<u8>, from: int) -> Option<int>
    decreases b.len() - from,
{
    if from < 0 || from + 4 > b.len() {
        None
    } else if is_blank_line_at(b, from) {
        Some(from)
    } else {
        next_blank_line(b, from + 1)
    }
}

/// The body of a request: what follows its first blank line; empty without one.
pub open spec fn body_of(b: Seq<u8>) -> Seq<u8> {
    match next_blank_line(b, 0) {
        Some(i) => b.subrange(i + 4, b.len() as int),
        None => Seq::empty(),
    }
}

/// An index at which a text can be cut without splitting a character.
pub open spec fn cut_point(b: Seq<u8>, i: int) -> bool {
    0 <= i <= b.len() && (i == 0 || i == b.len() || b[i] < 128 || b[i - 1] < 128)
}

/// In UTF-8, the byte after an ASCII byte starts a character.
proof fn lemma_after_ascii(b: Seq<u8>, i: int)
    requires
        vstd::utf8::valid_utf8(b),
        0 <= i,
        i + 1 < b.len(),
        b[i] < 128,
    ensures
        !vstd::utf8::is_continuation_byte(b[i + 1]),
    decreases b.len(),
{
    let l = vstd::utf8::length_of_first_scalar(b);
    let rest = vstd::utf8::pop_first_scalar(b);
    assert(vstd::utf8::valid_first_scalar(b));
    assert(1 <= l <= b.len());
    assert(rest.len() == b.len() - l);
    if i + 1 < l {
        assert(b[0] >= 0xc0);
        assert(i == 0 || vstd::utf8::is_continuation_byte(b[i]));
    } else if i + 1 == l {
        assert(rest[0] == b[i + 1]);
        assert(vstd::utf8::valid_utf8(rest));
        assert(rest.len() != 0);
        assert(vstd::utf8::valid_first_scalar(rest));
    } else {
        assert(rest[i - l + 1] == b[i + 1]);
        assert(rest[i - l] == b[i]);
        lemma_after_ascii(rest, i - l);
    }
}

proof fn lemma_cut_point(b: Seq<u8>, i: int)
    requires
        vstd::utf8::valid_utf8(b),
        cut_point(b, i),
    ensures
        vstd::utf8::is_char_boundary(b, i),
{
    if i != 0 && i != b.len() {
        vstd::utf8::is_char_boundary_iff_not_is_continuation_byte(b, i);
        if b[i] >= 128 {
            lemma_after_ascii(b, i - 1);
        }
    }
}

/// The part of `s` between two cut points, by byte index.
fn slice_bytes<'a>(s: &'a str, from: usize, to: usize) -> (r: &'a str)
    requires
        from <= to,
        cut_point(s.spec_bytes(), from as int),
        cut_point(s.spec_bytes(), to as int),
    ensures
        r.spec_bytes() == s.spec_bytes().subrange(from as int, to as int),
{
    let ghost b = s.spec_bytes();
    proof {
        lemma_cut_point(b, from as int);
    }
    let (_, tail) = s.split_at(from);
    let ghost t = tail.spec_bytes();
    assert(t =~= b.subrange(from as int, b.len() as int));
    assert(cut_point(t, to - from)) by {
        if to - from != 0 && to != b.len() {
            if b[to as int] < 128 {
                assert(t[to - from] == b[to as int]);
            } else {
                assert(t[to - from - 1] == b[to - 1]);
            }
        }
    }
    proof {
        lemma_cut_point(t, to - from);
    }
    let (mid, _) = tail.split_at(to - from);
    assert(mid.spec_bytes() =~= b.subrange(from as int, to as int));
    mid
}

/// Finds the next slash at or after `from`.
fn find_slash(b: &[u8], from: usize) -> (r: usize)
    requires
        from <= b@.len(),
    ensures
        r == next_slash(b@, from as int),
{
    let mut i = from;
    while i < b.len() && b[i] != 47
        invariant
            from <= i <= b@.len(),
            next_slash(b@, i as int) == next_slash(b@, from as int),
        decreases b@.len() - i,
    {
        i = i + 1;
    }
    i
}

/// Finds the first index in `from..to` whose byte is, or is not, whitespace.
fn find_where(b: &[u8], from: usize, to: usize, space: bool) -> (r: usize)
    requires
        from <= to <= b@.len(),
    ensures
        r == next_where(b@, from as int, to as int, space),
        from <= r <= to,
{
    let mut i = from;
    while i < to && is_space_byte(b[i]) != space
        invariant
            from <= i <= to <= b@.len(),
            next_where(b@, i as int, to as int, space) == next_where(
                b@,
                from as int,
                to as int,
                space,
            ),
        decreases to - i,
    {
        i = i + 1;
    }
    i
}

fn is_space_byte(c: u8) -> (r: bool)
    ensures
        r == is_space(c),
{
    c == 32 || c == 9 || c == 10 || c == 11 || c == 12 || c == 13
}

proof fn lemma_next_slash_bound(b: Seq<u8>, from: int)
    requires
        0 <= from <= b.len(),
    ensures
        from <= next_slash(b, from) <= b.len(),
        next_slash(b, from) < b.len() ==> b[next_slash(b, from)] == 47,
    decreases b.len() - from,
{
    if from < b.len() && b[from] != 47 {
        lemma_next_slash_bound(b, from + 1);
    }
}

proof fn lemma_next_where_bound(b: Seq<u8>, from: int, to: int, space: bool)
    requires
        0 <= from <= to <= b.len(),
    ensures
        from <= next_where(b, from, to, space) <= to,
        next_where(b, from, to, space) < to ==> is_space(b[next_where(b, from, to, space)])
            == space,
        forall|j: int| from <= j < next_where(b, from, to, space) ==> is_space(b[j]) != space,
    decreases to - from,
{
    if from < to && is_space(b[from]) != space {
        lemma_next_where_bound(b, from + 1, to, space);
    }
}

/// The identifier segment of a request path: the first token of the third
/// slash-delimited part of the request, tokens being separated by ASCII
/// whitespace; empty where the request has fewer than two slashes.
pub fn get_user_id_from_request(request: &str) -> (r: &str)
    ensures
        r.spec_bytes() == request.spec_bytes().subrange(
            id_bounds(request.spec_bytes()).0,
            id_bounds(request.spec_bytes()).1,
        ),
{
    let b = request.as_bytes();
    let ghost bs = b@;
    let first = find_slash(b, 0);
    proof {
        lemma_next_slash_bound(bs, 0);
    }
    if first >= b.len() {
        assert(request.spec_bytes().subrange(0, 0) =~= Seq::<u8>::empty());
        return slice_bytes(request, 0, 0);
    }
    let second = find_slash(b, first + 1);
    proof {
        lemma_next_slash_bound(bs, first + 1);
    }
    if second >= b.len() {
        return slice_bytes(request, 0, 0);
    }
    let start = second + 1;
    let end = find_slash(b, start);
    proof {
        lemma_next_slash_bound(bs, start as int);
    }
    let token = find_where(b, start, end, false);
    let token_end = find_where(b, token, end, true);
    proof {
        lemma_next_where_bound(bs, start as int, end as int, false);
        lemma_next_where_bound(bs, token as int, end as int, true);
        assert(cut_point(bs, token as int)) by {
            if token > start {
                assert(is_space(bs[token - 1]));
            }
            if token < end {
                assert(!is_space(bs[token as int]));
            } else if end < bs.len() {
                assert(bs[end as int] == 47);
            }
        }
        assert(cut_point(bs, token_end as int)) by {
            if token_end < end {
                assert(is_space(bs[token_end as int]));
            } else if end < bs.len() {
                assert(bs[end as int] == 47);
            }
        }
    }
    slice_bytes(request, token, token_end)
}

/// Finds the first blank line at or after `from`.
fn find_blank_line(b: &[u8], from: usize) -> (r: Option<usize>)
    requires
        from <= b@.len(),
    ensures
        r matches Some(i) ==> next_blank_line(b@, from as int) == Some(i as int)
            && is_blank_line_at(b@, i as int),
        r is None ==> next_blank_line(b@, from as int) is None,
{
    let mut i = from;
    while i < b.len() && b.len() - i >= 4
        invariant
            from <= i <= b@.len(),
            next_blank_line(b@, i as int) == next_blank_line(b@, from as int),
        decreases b@.len() - i,
    {
        if b[i] == 13 && b[i + 1] == 10 && b[i + 2] == 13 && b[i + 3] == 10 {
            return Some(i);
        }
        i = i + 1;
    }
    None
}

/// The body of a request: the text after its first blank line, or an empty
/// text where it has none.
pub fn request_body(request: &str) -> (r: &str)
    ensures
        r.spec_bytes() == body_of(request.spec_bytes()),
{
    let b = request.as_bytes();
    match find_blank_line(b, 0) {
        Some(i) => {
            let len = b.len();
            let r = slice_bytes(request, i + 4, len);
            r
        },
        None => {
            let r = slice_bytes(request, 0, 0);
            assert(r.spec_bytes() =~= Seq::<u8>::empty());
            r
        },
    }
}

/// A byte that is an ASCII decimal digit.
pub open spec fn is_digit(c: u8) -> bool {
    48 <= c <= 57
}

/// The value of a sequence of decimal digits.
pub open spec fn digits_value(s: Seq<u8>) -> int
    decreases s.len(),
{
    if s.len() == 0 {
        0
    } else {
        digits_value(s.drop_last()) * 10 + (s.last() - 48)
    }
}

/// The user identifier that a token names: a positive `i32` written in decimal
/// digits alone.
pub open spec fn user_id_of(s: Seq<u8>) -> Option<int> {
    if s.len() > 0 && (forall|i: int| 0 <= i < s.len() ==> is_digit(#[trigger] s[i])) && 0
        < digits_value(s) <= i32::MAX {
        Some(digits_value(s))
    } else {
        None
    }
}

proof fn lemma_digits_grow(s: Seq<u8>, i: int)
    requires
        0 <= i <= s.len(),
        forall|j: int| 0 <= j < s.len() ==> is_digit(#[trigger] s[j]),
    ensures
        0 <= digits_value(s.subrange(0, i)) <= digits_value(s),
    decreases s.len(),
{
    if s.len() == 0 {
        assert(s.subrange(0, i) =~= s);
    } else {
        let t = s.drop_last();
        assert(forall|j: int| 0 <= j < t.len() ==> t[j] == s[j]);
        if i == s.len() {
            lemma_digits_grow(t, t.len() as int);
            assert(s.subrange(0, i) =~= s);
            assert(t.subrange(0, t.len() as int) =~= t);
        } else {
            lemma_digits_grow(t, i);
            assert(s.subrange(0, i) =~= t.subrange(0, i));
        }
    }
}

/// Reads a user identifier from its token.
pub fn parse_user_id(token: &str) -> (r: Option<i32>)
    ensures
        r == (match user_id_of(token.spec_bytes()) {
            Some(v) => Some(v as i32),
            None => None::<i32>,
        }),
{
    let b = token.as_bytes();
    let ghost s = b@;
    if b.len() == 0 {
        return None;
    }
    let mut value: u32 = 0;
    let mut i: usize = 0;
    while i < b.len()
        invariant
            0 <= i <= s.len(),
            s == b@,
            s == token.spec_bytes(),
            forall|j: int| 0 <= j < i ==> is_digit(#[trigger] s[j]),
            value == digits_value(s.subrange(0, i as int)),
            value <= i32::MAX,
        decreases s.len() - i,
    {
        let c = b[i];
        if c < 48 || c > 57 {
            assert(!is_digit(s[i as int]));
            assert(user_id_of(s) is None);
            return None;
        }
        assert(s.subrange(0, i + 1).drop_last() =~= s.subrange(0, i as int));
        let next: u64 = value as u64 * 10 + (c - 48) as u64;
        if next > 2147483647 {
            proof {
                if forall|j: int| 0 <= j < s.len() ==> is_digit(#[trigger] s[j]) {
                    lemma_digits_grow(s, i + 1);
                }
            }
            return None;
        }
        value = next as u32;
        i = i + 1;
    }
    assert(s.subrange(0, i as int) =~= s);
    if value == 0 {
        return None;
    }
    Some(value as i32)
}

} // verus!
