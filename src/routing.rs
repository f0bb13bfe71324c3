//! Matching a request's method and path against the site's routes.

use vstd::prelude::*;
use vstd::utf8::{decode_utf8, encode_utf8, valid_utf8};

verus! {

/// The HTTP request method.
#[derive(Clone, Copy, Debug, PartialEq, Eq, Structural)]
pub enum Method {
    Get,
    Head,
    Post,
    Put,
    Delete,
    Patch,
    Options,
    Other,
}

/// Which asset directory a static file is served from.
#[derive(Clone, Copy, Debug, PartialEq, Eq, Structural)]
pub enum AssetKind {
    Css,
    Js,
}

/// The handler a request is dispatched to, with the path parameter it captured.
pub enum Route {
    Index,
    Category { category_name: String },
    Details { server_url: String },
    ApiServers,
    Asset { kind: AssetKind, filename: String },
}

/// A route with its captured parameter seen as its characters.
pub ghost enum RouteView {
    Index,
    Category(Seq<char>),
    Details(Seq<char>),
    ApiServers,
    Asset(AssetKind, Seq<char>),
}

impl View for Route {
    type V = RouteView;

    open spec fn view(&self) -> RouteView {
        match self {
            Route::Index => RouteView::Index,
            Route::Category { category_name } => RouteView::Category(category_name@),
            Route::Details { server_url } => RouteView::Details(server_url@),
            Route::ApiServers => RouteView::ApiServers,
            Route::Asset { kind, filename } => RouteView::Asset(*kind, filename@),
        }
    }
}

/// Whether `s` begins with `prefix`.
pub open spec fn starts_with(s: Seq<char>, prefix: Seq<char>) -> bool {
    prefix.len() <= s.len() && s.subrange(0, prefix.len() as int) == prefix
}

/// Whether `s` ends with `suffix`.
pub open spec fn ends_with(s: Seq<char>, suffix: Seq<char>) -> bool {
    suffix.len() <= s.len() && s.subrange(s.len() - suffix.len(), s.len() as int) == suffix
}

/// A single non-empty path segment.
pub open spec fn is_segment(s: Seq<char>) -> bool {
    s.len() > 0 && !s.contains('/')
}

/// What follows `prefix` in `path`, when `path` starts with it and the rest is one segment.
pub open spec fn captured_segment(path: Seq<char>, prefix: Seq<char>) -> Option<Seq<char>> {
    if starts_with(path, prefix) && is_segment(path.skip(prefix.len() as int)) {
        Some(path.skip(prefix.len() as int))
    } else {
        None
    }
}

/// The value of a hexadecimal digit.
pub open spec fn hex_value(c: u8) -> Option<u8> {
    if 48 <= c && c <= 57 {
        Some((c - 48) as u8)
    } else if 97 <= c && c <= 102 {
        Some((c - 97 + 10) as u8)
    } else if 65 <= c && c <= 70 {
        Some((c - 65 + 10) as u8)
    } else {
        None
    }
}

/// The byte that an escape `%XY` at the front of `b` stands for, when it is one.
pub open spec fn escape_at_front(b: Seq<u8>) -> Option<u8> {
    if b.len() >= 3 && b[0] == 37 && hex_value(b[1]) is Some && hex_value(b[2]) is Some {
        Some((hex_value(b[1])->0 * 16 + hex_value(b[2])->0) as u8)
    } else {
        None
    }
}

/// Bytes with each well-formed escape `%XY` replaced by the byte it stands for;
/// anything else is kept as it stands.
pub open spec fn percent_bytes(b: Seq<u8>) -> Seq<u8>
    decreases b.len(),
{
    if b.len() == 0 {
        Seq::empty()
    } else if escape_at_front(b) is Some {
        seq![escape_at_front(b)->0] + percent_bytes(b.skip(3))
    } else {
        seq![b[0]] + percent_bytes(b.skip(1))
    }
}

/// The text that a captured path segment stands for: its UTF-8 bytes with the
/// escapes decoded, read back as UTF-8 with invalid sequences replaced.
pub open spec fn percent_decode(s: Seq<char>) -> Seq<char> {
    utf8_lossy(percent_bytes(encode_utf8(s)))
}

/// What `String::from_utf8_lossy` makes of a byte sequence.
pub uninterp spec fn utf8_lossy(b: Seq<u8>) -> Seq<char>;

/// The route a request goes to, if any: only GET requests are served.
pub open spec fn spec_route(method: Method, path: Seq<char>) -> Option<RouteView> {
    if method != Method::Get {
        None
    } else if path == "/"@ {
        Some(RouteView::Index)
    } else if path == "/api/servers"@ {
        Some(RouteView::ApiServers)
    } else if captured_segment(path, "/category/"@) is Some {
        Some(RouteView::Category(percent_decode(captured_segment(path, "/category/"@)->0)))
    } else if captured_segment(path, "/details/"@) is Some {
        Some(RouteView::Details(percent_decode(captured_segment(path, "/details/"@)->0)))
    } else if starts_with(path, "/assets/"@) && ends_with(path.skip("/assets/"@.len() as int), ".css"@) {
        Some(RouteView::Asset(AssetKind::Css, percent_decode(path.skip("/assets/"@.len() as int))))
    } else if starts_with(path, "/assets/"@) && ends_with(path.skip("/assets/"@.len() as int), ".js"@) {
        Some(RouteView::Asset(AssetKind::Js, percent_decode(path.skip("/assets/"@.len() as int))))
    } else {
        None
    }
}

/// Whether `s` and `t` hold the same characters.
pub fn same_text(s: &str, t: &str) -> (r: bool)
    ensures
        r == (s@ == t@),
{
    let n = s.unicode_len();
    if n != t.unicode_len() {
        return false;
    }
    let mut i: usize = 0;
    while i < n
        invariant
            n == s@.len(),
            n == t@.len(),
            i <= n,
            s@.subrange(0, i as int) == t@.subrange(0, i as int),
        decreases n - i,
    {
        if s.get_char(i) != t.get_char(i) {
            assert(s@[i as int] != t@[i as int]);
            return false;
        }
        assert(s@.subrange(0, i + 1) =~= s@.subrange(0, i as int).push(s@[i as int]));
        assert(t@.subrange(0, i + 1) =~= t@.subrange(0, i as int).push(t@[i as int]));
        i = i + 1;
    }
    assert(s@ =~= s@.subrange(0, n as int));
    assert(t@ =~= t@.subrange(0, n as int));
    true
}

/// Whether `s` begins with `prefix`.
pub fn has_prefix(s: &str, prefix: &str) -> (r: bool)
    ensures
        r == starts_with(s@, prefix@),
{
    let n = s.unicode_len();
    let m = prefix.unicode_len();
    if m > n {
        return false;
    }
    same_text(s.substring_char(0, m), prefix)
}

/// Whether `s` ends with `suffix`.
pub fn has_suffix(s: &str, suffix: &str) -> (r: bool)
    ensures
        r == ends_with(s@, suffix@),
{
    let n = s.unicode_len();
    let m = suffix.unicode_len();
    if m > n {
        return false;
    }
    same_text(s.substring_char(n - m, n), suffix)
}

/// Whether `s` holds the character `c`.
pub fn has_char(s: &str, c: char) -> (r: bool)
    ensures
        r == s@.contains(c),
{
    let n = s.unicode_len();
    let mut i: usize = 0;
    while i < n
        invariant
            n == s@.len(),
            i <= n,
            forall|j: int| 0 <= j < i ==> s@[j] != c,
        decreases n - i,
    {
        if s.get_char(i) == c {
            assert(s@[i as int] == c);
            return true;
        }
        i = i + 1;
    }
    false
}

/// Relies on `String::from_utf8_lossy`: valid UTF-8 is read as it stands, and
/// each invalid sequence becomes U+FFFD; the result depends on the bytes alone.
#[verifier::external_body]
fn string_from_utf8_lossy(b: &Vec<u8>) -> (r: String)
    ensures
        r@ == utf8_lossy(b@),
        valid_utf8(b@) ==> r@ == decode_utf8(b@),
{
    String::from_utf8_lossy(b.as_slice()).into_owned()
}

/// The value of a hexadecimal digit, if `c` is one.
fn hex_digit(c: u8) -> (r: Option<u8>)
    ensures
        r == hex_value(c),
{
    if 48 <= c && c <= 57 {
        Some(c - 48)
    } else if 97 <= c && c <= 102 {
        Some(c - 97 + 10)
    } else if 65 <= c && c <= 70 {
        Some(c - 65 + 10)
    } else {
        None
    }
}

/// The bytes of `b` with each escape `%XY` decoded.
pub fn decode_percent_bytes(b: &[u8]) -> (r: Vec<u8>)
    ensures
        r@ == percent_bytes(b@),
{
    let n = b.len();
    let mut out: Vec<u8> = Vec::new();
    let mut i: usize = 0;
    assert(b@.skip(0) =~= b@);
    assert(out@ + percent_bytes(b@) =~= percent_bytes(b@));
    while i < n
        invariant
            n == b@.len(),
            i <= n,
            out@ + percent_bytes(b@.skip(i as int)) == percent_bytes(b@),
        decreases n - i,
    {
        let ghost rest = b@.skip(i as int);
        let c = b[i];
        let mut decoded: Option<u8> = None;
        if c == 37 && n - i > 2 {
            match (hex_digit(b[i + 1]), hex_digit(b[i + 2])) {
                (Some(hi), Some(lo)) => {
                    decoded = Some(hi * 16 + lo);
                },
                _ => {},
            }
        }
        assert(rest[0] == c);
        match decoded {
            Some(v) => {
                assert(rest[1] == b@[i + 1]);
                assert(rest[2] == b@[i + 2]);
                assert(escape_at_front(rest) == Some(v));
                assert(rest.skip(3) =~= b@.skip(i + 3));
                let ghost before = out@;
                out.push(v);
                assert(out@ + percent_bytes(b@.skip(i + 3)) =~= before + percent_bytes(rest));
                i = i + 3;
            },
            None => {
                assert(escape_at_front(rest) is None) by {
                    if rest.len() >= 3 {
                        assert(rest[1] == b@[i + 1]);
                        assert(rest[2] == b@[i + 2]);
                    }
                }
                assert(rest.skip(1) =~= b@.skip(i + 1));
                let ghost before = out@;
                out.push(c);
                assert(out@ + percent_bytes(b@.skip(i + 1)) =~= before + percent_bytes(rest));
                i = i + 1;
            },
        }
    }
    assert(b@.skip(n as int) =~= Seq::<u8>::empty());
    assert(out@ + Seq::<u8>::empty() =~= out@);
    out
}

/// The text a captured path segment stands for, with its escapes decoded.
pub fn decode_segment(s: &str) -> (r: String)
    ensures
        r@ == percent_decode(s@),
{
    let bytes = decode_percent_bytes(s.as_bytes());
    string_from_utf8_lossy(&bytes)
}

/// The rest of `path` after `prefix`, when `path` starts with it and the rest is one segment.
pub fn capture_segment(path: &str, prefix: &str) -> (r: Option<String>)
    ensures
        match r {
            Some(seg) => captured_segment(path@, prefix@) == Some(seg@),
            None => captured_segment(path@, prefix@) is None,
        },
{
    if !has_prefix(path, prefix) {
        return None;
    }
    let rest = path.substring_char(prefix.unicode_len(), path.unicode_len());
    assert(rest@ =~= path@.skip(prefix@.len() as int));
    if rest.unicode_len() == 0 || has_char(rest, '/') {
        None
    } else {
        Some(String::from_str(rest))
    }
}

/// Selects the route a request goes to, or none when no route matches.
pub fn match_route(method: Method, path: &str) -> (r: Option<Route>)
    ensures
        match r {
            Some(route) => spec_route(method, path@) == Some(route@),
            None => spec_route(method, path@) is None,
        },
{
    if method != Method::Get {
        return None;
    }
    if same_text(path, "/") {
        return Some(Route::Index);
    }
    if same_text(path, "/api/servers") {
        return Some(Route::ApiServers);
    }
    match capture_segment(path, "/category/") {
        Some(category_name) => {
            return Some(Route::Category { category_name: decode_segment(category_name.as_str()) });
        },
        None => {},
    }
    match capture_segment(path, "/details/") {
        Some(server_url) => {
            return Some(Route::Details { server_url: decode_segment(server_url.as_str()) });
        },
        None => {},
    }
    if has_prefix(path, "/assets/") {
        let rest = path.substring_char("/assets/".unicode_len(), path.unicode_len());
        assert(rest@ =~= path@.skip("/assets/"@.len() as int));
        if has_suffix(rest, ".css") {
            return Some(Route::Asset { kind: AssetKind::Css, filename: decode_segment(rest) });
        }
        if has_suffix(rest, ".js") {
            return Some(Route::Asset { kind: AssetKind::Js, filename: decode_segment(rest) });
        }
    }
    None
}

} // verus!
