use crate::error::{error_reply, HttpError, HttpErrorKind};
use vstd::prelude::*;

verus! {

/// The largest number of headers that one request may carry.
pub const MAX_HEADERS: usize = 64;

/// The size of the buffer into which one request is read.
pub const REQUEST_BUFFER_SIZE: usize = 2048;

/// One request header: its name and its raw value.
pub struct Header {
    pub name: Vec<u8>,
    pub value: Vec<u8>,
}

/// A parsed request line and its headers, in the order received.
pub struct RawRequest {
    pub method: String,
    pub path: String,
    pub headers: Vec<Header>,
}

/// A header as a pair of byte sequences: name and value.
pub open spec fn header_view(h: Header) -> (Seq<u8>, Seq<u8>) {
    (h.name@, h.value@)
}

impl RawRequest {
    /// The method, the path and the headers as plain sequences.
    pub open spec fn view(&self) -> (Seq<char>, Seq<char>, Seq<(Seq<u8>, Seq<u8>)>) {
        (self.method@, self.path@, self.headers@.map_values(|h: Header| header_view(h)))
    }
}

/// What `httparse` makes of `buf` with room for `max_headers` headers: the
/// method, path and headers of a complete request, or nothing when the bytes
/// hold no complete, well-formed request.
pub uninterp spec fn httparse_request(buf: Seq<u8>, max_headers: nat) -> Option<
    (Seq<char>, Seq<char>, Seq<(Seq<u8>, Seq<u8>)>),
>;

/// Relies on `httparse::Request::parse`: a request is returned only when the
/// parse reports a complete request, and then it holds the parsed method,
/// path and headers.
#[verifier::external_body]
fn parse_with_httparse(buf: &[u8], max_headers: usize) -> (r: Option<RawRequest>)
    ensures
        match httparse_request(buf@, max_headers as nat) {
            Some(v) => r is Some && r->Some_0.view() == v,
            None => r is None,
        },
{
    let mut slots = vec![httparse::EMPTY_HEADER; max_headers];
    let mut req = httparse::Request::new(&mut slots);
    match req.parse(buf) {
        Ok(httparse::Status::Complete(_)) => Some(RawRequest {
            method: req.method.unwrap_or("").to_string(),
            path: req.path.unwrap_or("").to_string(),
            headers: req.headers.iter().map(
                |h| Header { name: h.name.as_bytes().to_vec(), value: h.value.to_vec() },
            ).collect(),
        }),
        Ok(httparse::Status::Partial) => None,
        Err(_) => None,
    }
}

/// Parses one request: its request line and headers. Bytes that hold no
/// complete, well-formed request give `MalformedRequest`.
pub fn parse_request(buf: &[u8]) -> (r: Result<RawRequest, HttpError>)
    ensures
        match httparse_request(buf@, MAX_HEADERS as nat) {
            Some(v) => r is Ok && r->Ok_0.view() == v,
            None => r is Err && r->Err_0.kind == HttpErrorKind::MalformedRequest
                && r->Err_0.err_data@ == error_reply(HttpErrorKind::MalformedRequest),
        },
{
    match parse_with_httparse(buf, MAX_HEADERS) {
        Some(req) => Ok(req),
        None => Err(HttpError::new(HttpErrorKind::MalformedRequest)),
    }
}

/// Whether byte `b` equals the lower-case ASCII byte `l`, ignoring ASCII case.
pub open spec fn byte_matches_lower(b: u8, l: u8) -> bool {
    b == l || (65 <= b <= 90 && b + 32 == l)
}

/// Whether `s` equals the lower-case ASCII text `lower`, ignoring ASCII case.
pub open spec fn matches_ignoring_case(s: Seq<u8>, lower: Seq<u8>) -> bool {
    s.len() == lower.len() && forall|i: int|
        0 <= i < s.len() ==> #[trigger] byte_matches_lower(s[i], lower[i])
}

/// Compares `s` with the lower-case ASCII text `lower`, ignoring ASCII case.
pub fn eq_ignoring_case(s: &[u8], lower: &[u8]) -> (r: bool)
    ensures
        r == matches_ignoring_case(s@, lower@),
{
    if s.len() != lower.len() {
        return false;
    }
    let mut i: usize = 0;
    while i < s.len()
        invariant
            s@.len() == lower@.len(),
            0 <= i <= s@.len(),
            forall|j: int| 0 <= j < i ==> #[trigger] byte_matches_lower(s@[j], lower@[j]),
        decreases s@.len() - i,
    {
        let b = s[i];
        let l = lower[i];
        if !(b == l || (65 <= b && b <= 90 && b + 32 == l)) {
            assert(!byte_matches_lower(s@[i as int], lower@[i as int]));
            return false;
        }
        i = i + 1;
    }
    true
}

/// Whether `needle` occurs in `hay` starting at position `i`.
pub open spec fn occurs_at(hay: Seq<u8>, needle: Seq<u8>, i: int) -> bool {
    0 <= i && i + needle.len() <= hay.len() && hay.subrange(i, i + needle.len()) == needle
}

/// Whether `needle` occurs anywhere in `hay`.
pub open spec fn contains_bytes(hay: Seq<u8>, needle: Seq<u8>) -> bool {
    exists|i: int| occurs_at(hay, needle, i)
}

/// Searches `hay` for `needle`.
pub fn find_bytes(hay: &[u8], needle: &[u8]) -> (r: bool)
    ensures
        r == contains_bytes(hay@, needle@),
{
    if needle.len() == 0 {
        assert(hay@.subrange(0, 0) =~= needle@);
        assert(occurs_at(hay@, needle@, 0));
        return true;
    }
    let mut i: usize = 0;
    while i <= hay.len() && needle.len() <= hay.len() - i
        invariant
            needle@.len() >= 1,
            0 <= i <= hay@.len(),
            forall|k: int| 0 <= k < i ==> !#[trigger] occurs_at(hay@, needle@, k),
        decreases hay@.len() - i,
    {
        let mut j: usize = 0;
        let mut same: bool = true;
        while j < needle.len()
            invariant
                i + needle@.len() <= hay@.len(),
                hay@.len() == hay.len(),
                0 <= j <= needle@.len(),
                same == (forall|m: int| 0 <= m < j ==> hay@[i + m] == needle@[m]),
            decreases needle@.len() - j,
        {
            if hay[i + j] != needle[j] {
                same = false;
            }
            j = j + 1;
        }
        if same {
            assert(hay@.subrange(i as int, i + needle@.len()) =~= needle@);
            assert(occurs_at(hay@, needle@, i as int));
            return true;
        }
        assert(!occurs_at(hay@, needle@, i as int)) by {
            if occurs_at(hay@, needle@, i as int) {
                assert forall|m: int| 0 <= m < needle@.len() implies hay@[i + m] == needle@[m] by {
                    assert(hay@.subrange(i as int, i + needle@.len())[m] == hay@[i + m]);
                }
            }
        }
        i = i + 1;
    }
    assert forall|k: int| !occurs_at(hay@, needle@, k) by {
        if occurs_at(hay@, needle@, k) {
            assert(k < i);
        }
    }
    false
}

/// The value of the last header in `hs` whose name is `lower`, ignoring ASCII
/// case.
pub open spec fn last_header_value(hs: Seq<(Seq<u8>, Seq<u8>)>, lower: Seq<u8>) -> Option<Seq<u8>>
    decreases hs.len(),
{
    if hs.len() == 0 {
        None
    } else if matches_ignoring_case(hs.last().0, lower) {
        Some(hs.last().1)
    } else {
        last_header_value(hs.drop_last(), lower)
    }
}

} // verus!
