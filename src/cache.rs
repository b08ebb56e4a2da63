use vstd::prelude::*;
use crate::text::{decimal, decimal_string, has_prefix_ignoring_case, starts_ignoring_case};

verus! {

/// Seconds that a cached response lives when no other TTL is configured.
pub const DEFAULT_CACHE_TTL: u32 = 600;

pub open spec fn is_digit(c: char) -> bool {
    '0' <= c && c <= '9'
}

/// The number that a string of decimal digits writes.
pub open spec fn digits_value(s: Seq<char>) -> nat
    decreases s.len(),
{
    if s.len() == 0 {
        0
    } else {
        digits_value(s.drop_last()) * 10 + (s.last() as nat - '0' as nat) as nat
    }
}

/// The digits of an unsigned decimal, without its optional leading `+`.
pub open spec fn unsigned_digits(s: Seq<char>) -> Seq<char> {
    if s.len() > 0 && s[0] == '+' { s.drop_first() } else { s }
}

/// The `u32` that a string writes in decimal: an optional `+`, then one or
/// more digits, with a value that fits.
pub open spec fn parsed_u32(s: Seq<char>) -> Option<u32> {
    let d = unsigned_digits(s);
    if d.len() > 0 && (forall|i: int| 0 <= i < d.len() ==> is_digit(#[trigger] d[i]))
        && digits_value(d) <= u32::MAX {
        Some(digits_value(d) as u32)
    } else {
        None
    }
}

/// Reads an unsigned decimal that fits in `u32`.
pub fn parse_u32(s: &str) -> (r: Option<u32>)
    ensures
        r == parsed_u32(s@),
{
    let n = s.unicode_len();
    let start: usize = if n > 0 && s.get_char(0) == '+' { 1 } else { 0 };
    let d = s.substring_char(start, n);
    assert(d@ =~= unsigned_digits(s@));
    let len = d.unicode_len();
    if len == 0 {
        return None;
    }
    let mut v: u64 = 0;
    let mut overflow = false;
    let mut i: usize = 0;
    while i < len
        invariant
            len == d@.len(),
            d@ == unsigned_digits(s@),
            i <= len,
            forall|j: int| 0 <= j < i ==> is_digit(#[trigger] d@[j]),
            !overflow ==> v == digits_value(d@.subrange(0, i as int)) && v <= u32::MAX,
            overflow ==> digits_value(d@.subrange(0, i as int)) > u32::MAX,
        decreases len - i,
    {
        let c = d.get_char(i);
        if !('0' <= c && c <= '9') {
            assert(!is_digit(unsigned_digits(s@)[i as int]));
            return None;
        }
        assert(d@.subrange(0, i + 1).drop_last() =~= d@.subrange(0, i as int));
        if !overflow {
            v = v * 10 + (c as u64 - '0' as u64);
            if v > u32::MAX as u64 {
                overflow = true;
            }
        }
        i = i + 1;
    }
    assert(d@.subrange(0, len as int) =~= d@);
    if overflow {
        None
    } else {
        Some(v as u32)
    }
}

/// The cache TTL: the configured value where it reads as a `u32`, else the
/// default.
pub fn cache_ttl(configured: Option<&str>) -> (r: u32)
    ensures
        r == match configured {
            Some(s) => match parsed_u32(s@) {
                Some(t) => t,
                None => DEFAULT_CACHE_TTL,
            },
            None => DEFAULT_CACHE_TTL,
        },
{
    match configured {
        Some(s) => match parse_u32(s) {
            Some(t) => t,
            None => DEFAULT_CACHE_TTL,
        },
        None => DEFAULT_CACHE_TTL,
    }
}

/// A response header, name and value.
pub type Header = (String, String);

pub open spec fn header_view(h: Header) -> (Seq<char>, Seq<char>) {
    (h.0@, h.1@)
}

pub open spec fn headers_view(hs: Seq<Header>) -> Seq<(Seq<char>, Seq<char>)> {
    hs.map_values(|h: Header| header_view(h))
}

/// The name of the header that tells a cache hit from a miss, in lower case.
pub open spec fn cache_status_name() -> Seq<char> {
    "x-worker-cache"@
}

/// `name` names the cache status header, in any ASCII case.
pub open spec fn is_cache_status_name(name: Seq<char>) -> bool {
    name.len() == cache_status_name().len() && starts_ignoring_case(name, cache_status_name())
}

fn names_cache_status(name: &str) -> (r: bool)
    ensures
        r == is_cache_status_name(name@),
{
    let target = "x-worker-cache";
    proof {
        reveal_strlit("x-worker-cache");
    }
    name.unicode_len() == target.unicode_len() && has_prefix_ignoring_case(name, target)
}

pub open spec fn cache_control_value(ttl: u32) -> Seq<char> {
    "max-age="@ + decimal(ttl as nat)
}

/// The headers of a freshly computed response: `Cache-Control` with the TTL,
/// and the cache status `MISS`.
pub open spec fn miss_headers_spec(ttl: u32) -> Seq<(Seq<char>, Seq<char>)> {
    seq![("Cache-Control"@, cache_control_value(ttl)), ("X-Worker-Cache"@, "MISS"@)]
}

/// Keeps a header unless it is a cache status header.
pub open spec fn kept_header() -> spec_fn((Seq<char>, Seq<char>)) -> bool {
    |h: (Seq<char>, Seq<char>)| !is_cache_status_name(h.0)
}

/// The headers of a stored response as served again: every cache status
/// header is dropped, and one that says `HIT` is added.
pub open spec fn hit_headers_spec(hs: Seq<(Seq<char>, Seq<char>)>) -> Seq<(Seq<char>, Seq<char>)> {
    hs.filter(kept_header()).push(
        ("X-Worker-Cache"@, "HIT"@),
    )
}

/// The headers of a freshly computed response.
pub fn miss_headers(ttl: u32) -> (r: Vec<Header>)
    ensures
        headers_view(r@) == miss_headers_spec(ttl),
{
    let mut value = String::from_str("max-age=");
    let d = decimal_string(ttl as u64);
    value.append(d.as_str());
    let mut r: Vec<Header> = Vec::new();
    r.push((String::from_str("Cache-Control"), value));
    r.push((String::from_str("X-Worker-Cache"), String::from_str("MISS")));
    assert(headers_view(r@) =~= miss_headers_spec(ttl));
    r
}

/// The headers of a stored response as served again from the cache.
pub fn hit_headers(stored: &Vec<Header>) -> (r: Vec<Header>)
    ensures
        headers_view(r@) == hit_headers_spec(headers_view(stored@)),
{
    let ghost keep = kept_header();
    let mut r: Vec<Header> = Vec::new();
    let mut i: usize = 0;
    while i < stored.len()
        invariant
            i <= stored.len(),
            keep == kept_header(),
            headers_view(r@) == headers_view(stored@).subrange(0, i as int).filter(keep),
        decreases stored.len() - i,
    {
        proof {
            reveal(Seq::filter);
        }
        let ghost before = headers_view(stored@).subrange(0, i as int);
        let ghost upto = headers_view(stored@).subrange(0, i + 1);
        assert(upto.drop_last() =~= before);
        assert(upto.last() == header_view(stored@[i as int]));
        assert(upto.filter(keep) == (if keep(upto.last()) {
            before.filter(keep).push(upto.last())
        } else {
            before.filter(keep)
        }));
        let is_status = names_cache_status(stored[i].0.as_str());
        if !is_status {
            let ghost prev = headers_view(r@);
            r.push((stored[i].0.clone(), stored[i].1.clone()));
            assert(headers_view(r@) =~= prev.push(upto.last()));
        }
        i = i + 1;
    }
    assert(headers_view(stored@).subrange(0, stored.len() as int) =~= headers_view(stored@));
    let ghost mid = headers_view(r@);
    r.push((String::from_str("X-Worker-Cache"), String::from_str("HIT")));
    assert(headers_view(r@) =~= mid.push(("X-Worker-Cache"@, "HIT"@)));
    r
}

/// A response as handed to the caller and as kept in the cache.
#[derive(Clone, Debug)]
pub struct CachedResponse {
    pub status: u16,
    pub headers: Vec<Header>,
    pub body: String,
}

/// Status, headers and body of a response, as plain values.
pub type ResponseView = (u16, Seq<(Seq<char>, Seq<char>)>, Seq<char>);

impl CachedResponse {
    pub open spec fn view(&self) -> ResponseView {
        (self.status, headers_view(self.headers@), self.body@)
    }
}

/// A freshly computed response with `body`, to be kept for `ttl` seconds.
pub open spec fn fresh_view(body: Seq<char>, ttl: u32) -> ResponseView {
    (200, miss_headers_spec(ttl), body)
}

/// A stored response as served again: only the cache status header changes.
pub open spec fn served_view(stored: ResponseView) -> ResponseView {
    (stored.0, hit_headers_spec(stored.1), stored.2)
}

/// The response for a freshly computed body, marked as a cache miss.
pub fn fresh_response(body: String, ttl: u32) -> (r: CachedResponse)
    ensures
        r.view() == fresh_view(body@, ttl),
{
    CachedResponse { status: 200, headers: miss_headers(ttl), body }
}

/// A stored response as served from the cache, marked as a hit.
pub fn served_from_cache(stored: CachedResponse) -> (r: CachedResponse)
    ensures
        r.view() == served_view(stored.view()),
{
    let headers = hit_headers(&stored.headers);
    CachedResponse { status: stored.status, headers, body: stored.body }
}

/// A response kept on a miss and served again on a later request has the
/// same status and body, the same `Cache-Control`, and the cache status `HIT`.
pub proof fn lemma_hit_after_miss(body: Seq<char>, ttl: u32)
    ensures
        served_view(fresh_view(body, ttl)) == (
            200u16,
            seq![("Cache-Control"@, cache_control_value(ttl)), ("X-Worker-Cache"@, "HIT"@)],
            body,
        ),
{
    reveal_strlit("Cache-Control");
    reveal_strlit("X-Worker-Cache");
    reveal_strlit("x-worker-cache");
    reveal(Seq::filter);
    let hs = miss_headers_spec(ttl);
    assert(!is_cache_status_name(hs[0].0));
    assert(is_cache_status_name(hs[1].0));
    assert(hs.drop_last() =~= seq![hs[0]]);
    assert(seq![hs[0]].drop_last() =~= Seq::<(Seq<char>, Seq<char>)>::empty());
    let empty = Seq::<(Seq<char>, Seq<char>)>::empty();
    assert(empty.filter(kept_header()) == empty);
    assert(seq![hs[0]].filter(kept_header()) =~= empty.push(hs[0]));
    assert(hs.filter(kept_header()) =~= seq![hs[0]]);
    assert(hit_headers_spec(hs) =~= seq![
        ("Cache-Control"@, cache_control_value(ttl)),
        ("X-Worker-Cache"@, "HIT"@),
    ]);
}

} // verus!
