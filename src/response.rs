use crate::clock::{date_lines, date_lines_text, now_unix_seconds};
use crate::encoding::{append_decimal, decimal_text, flate2_gzip, gzip_encode};
use crate::error::{error_reply, HttpError, HttpErrorKind};
use crate::path::{content_type, content_type_of, extension_of, mime_type, resolve_path, resolved_path};
use crate::request::{
    contains_bytes,
    eq_ignoring_case,
    find_bytes,
    header_view,
    httparse_request,
    last_header_value,
    matches_ignoring_case,
    parse_request,
    Header,
    RawRequest,
    MAX_HEADERS,
};
use vstd::prelude::*;
use vstd::string::*;
use vstd::utf8::*;

verus! {

/// What the file system gave for the resolved path of a request.
pub enum FileLookup {
    /// No file exists at the path.
    Missing,
    /// The file exists but could not be opened.
    OpenFailed,
    /// The file was opened but could not be read.
    ReadFailed,
    /// The whole contents of the file.
    Contents(Vec<u8>),
}

/// The state of one request while it is served: the resolved file, whether
/// the client accepts gzip, and whether it asked to keep the connection open.
pub struct RequestConfig {
    pub request_path: Option<String>,
    pub keep_alive: bool,
    pub encoder: bool,
}

/// The lower-case name of the header that lists accepted encodings.
pub open spec fn accept_encoding_name() -> Seq<u8> {
    encode_utf8("accept-encoding"@)
}

/// The lower-case name of the header that asks for a persistent connection.
pub open spec fn connection_name() -> Seq<u8> {
    encode_utf8("connection"@)
}

/// The token that marks gzip in an `Accept-Encoding` value.
pub open spec fn gzip_token() -> Seq<u8> {
    encode_utf8("gzip"@)
}

/// The `Connection` value that asks for a persistent connection.
pub open spec fn keep_alive_token() -> Seq<u8> {
    encode_utf8("keep-alive"@)
}

/// Whether a request with headers `hs` gets a gzip-encoded body, where
/// `init` is the decision before the headers are read.
pub open spec fn encoder_after(hs: Seq<(Seq<u8>, Seq<u8>)>, init: bool) -> bool {
    match last_header_value(hs, accept_encoding_name()) {
        Some(v) => contains_bytes(v, gzip_token()),
        None => init,
    }
}

/// Whether a request with headers `hs` keeps its connection open, where
/// `init` is the decision before the headers are read.
pub open spec fn keep_alive_after(hs: Seq<(Seq<u8>, Seq<u8>)>, init: bool) -> bool {
    match last_header_value(hs, connection_name()) {
        Some(v) => matches_ignoring_case(v, keep_alive_token()),
        None => init,
    }
}

/// The status line and `Content-Type` line of a successful response, and the
/// `Content-Encoding` line when the body is gzip-encoded.
pub open spec fn type_head_text(ct: Seq<char>, gzip: bool) -> Seq<char> {
    "HTTP/1.1 200 OK\r\nContent-Type: "@ + ct + "\r\n"@ + if gzip {
        "Content-Encoding: gzip\r\n"@
    } else {
        Seq::<char>::empty()
    }
}

/// The `Content-Length` line for a body of `n` bytes, with the blank line
/// that ends the headers.
pub open spec fn length_line(n: nat) -> Seq<char> {
    "Content-Length: "@ + decimal_text(n) + "\r\n\r\n"@
}

/// The line that names the server.
pub open spec fn server_line() -> Seq<char> {
    "Server: StaticHttp\r\n"@
}

/// A successful response with media type `ct`, date lines `dates` and body
/// `body`.
pub open spec fn ok_response(ct: Seq<char>, gzip: bool, dates: Seq<char>, body: Seq<u8>) -> Seq<
    u8,
> {
    encode_utf8(type_head_text(ct, gzip)) + encode_utf8(dates) + encode_utf8(server_line())
        + encode_utf8(length_line(body.len())) + body
}

/// The body sent for `lookup`, gzip-encoded when `gzip` holds, or the kind
/// of failure that prevents it.
pub open spec fn encoded_body(gzip: bool, lookup: FileLookup) -> Result<Seq<u8>, HttpErrorKind> {
    match lookup {
        FileLookup::Missing => Err(HttpErrorKind::FileOpenError),
        FileLookup::OpenFailed => Err(HttpErrorKind::FileOpenError),
        FileLookup::ReadFailed => Err(HttpErrorKind::FileReadError),
        FileLookup::Contents(c) => if gzip {
            match flate2_gzip(c@) {
                Some(g) => Ok(g),
                None => Err(HttpErrorKind::EncodingError),
            }
        } else {
            Ok(c@)
        },
    }
}

/// The response to a request for `uri` under `top`, where the file system
/// gave `lookup` for the resolved path and the date lines are `dates`.
pub open spec fn response_with_dates(
    gzip: bool,
    top: Seq<char>,
    uri: Seq<char>,
    lookup: FileLookup,
    dates: Seq<char>,
) -> Seq<u8> {
    match resolved_path(top, uri) {
        None => error_reply(HttpErrorKind::PathNotFound),
        Some(p) => if lookup is Missing {
            error_reply(HttpErrorKind::PathNotFound)
        } else {
            match content_type(p) {
                None => error_reply(HttpErrorKind::NoExtension),
                Some(ct) => match encoded_body(gzip, lookup) {
                    Err(k) => error_reply(k),
                    Ok(b) => ok_response(ct, gzip, dates, b),
                },
            }
        },
    }
}

/// The response to a request for `uri` under `top` sent at time `now`.
pub open spec fn response_bytes(
    gzip: bool,
    top: Seq<char>,
    uri: Seq<char>,
    lookup: FileLookup,
    now: i64,
) -> Seq<u8> {
    response_with_dates(gzip, top, uri, lookup, date_lines_text(now))
}

impl RequestConfig {
    /// A request with no resolved file, no gzip and no keep-alive.
    pub fn new() -> (r: RequestConfig)
        ensures
            r.request_path is None,
            !r.keep_alive,
            !r.encoder,
    {
        RequestConfig { request_path: None, keep_alive: false, encoder: false }
    }

    /// Records whether the `Accept-Encoding` value `gzip_value` names gzip.
    pub fn set_encode(&mut self, gzip_value: &[u8])
        ensures
            final(self).encoder == contains_bytes(gzip_value@, gzip_token()),
            final(self).keep_alive == old(self).keep_alive,
            final(self).request_path == old(self).request_path,
    {
        self.encoder = find_bytes(gzip_value, "gzip".as_bytes());
    }

    /// Records whether the `Connection` value `keep_alive_value` asks for a
    /// persistent connection.
    pub fn set_keep_alive(&mut self, keep_alive_value: &[u8])
        ensures
            final(self).keep_alive == matches_ignoring_case(keep_alive_value@, keep_alive_token()),
            final(self).encoder == old(self).encoder,
            final(self).request_path == old(self).request_path,
    {
        self.keep_alive = eq_ignoring_case(keep_alive_value, "keep-alive".as_bytes());
    }

    /// Records the decisions that the headers `headers` make, the last
    /// header of each name winning.
    pub fn apply_headers(&mut self, headers: &Vec<Header>)
        ensures
            final(self).encoder == encoder_after(
                headers@.map_values(|h: Header| header_view(h)),
                old(self).encoder,
            ),
            final(self).keep_alive == keep_alive_after(
                headers@.map_values(|h: Header| header_view(h)),
                old(self).keep_alive,
            ),
            final(self).request_path == old(self).request_path,
    {
        let ghost hv = headers@.map_values(|h: Header| header_view(h));
        let ghost enc0 = self.encoder;
        let ghost keep0 = self.keep_alive;
        let mut i: usize = 0;
        while i < headers.len()
            invariant
                hv == headers@.map_values(|h: Header| header_view(h)),
                0 <= i <= headers@.len(),
                self.encoder == encoder_after(hv.take(i as int), enc0),
                self.keep_alive == keep_alive_after(hv.take(i as int), keep0),
                self.request_path == old(self).request_path,
            decreases headers@.len() - i,
        {
            let h = &headers[i];
            proof {
                assert(hv.take(i + 1).drop_last() =~= hv.take(i as int));
                assert(hv.take(i + 1).last() == header_view(*h));
            }
            if eq_ignoring_case(h.name.as_slice(), "accept-encoding".as_bytes()) {
                self.set_encode(h.value.as_slice());
            }
            if eq_ignoring_case(h.name.as_slice(), "connection".as_bytes()) {
                self.set_keep_alive(h.value.as_slice());
            }
            i = i + 1;
        }
        proof {
            assert(hv.take(headers@.len() as int) =~= hv);
        }
    }

    /// Parses the received bytes and records the decisions of the headers.
    /// Bytes that hold no complete request give `MalformedRequest` and
    /// leave the state as it was.
    pub fn read_request(&mut self, recv_request: &[u8]) -> (r: Result<RawRequest, HttpError>)
        ensures
            match httparse_request(recv_request@, MAX_HEADERS as nat) {
                Some(v) => r is Ok && r->Ok_0.view() == v && final(self).encoder
                    == encoder_after(v.2, old(self).encoder) && final(self).keep_alive
                    == keep_alive_after(v.2, old(self).keep_alive) && final(self).request_path
                    == old(self).request_path,
                None => r is Err && r->Err_0.kind == HttpErrorKind::MalformedRequest
                    && r->Err_0.err_data@ == error_reply(HttpErrorKind::MalformedRequest)
                    && *final(self) == *old(self),
            },
    {
        match parse_request(recv_request) {
            Ok(req) => {
                self.apply_headers(&req.headers);
                Ok(req)
            },
            Err(e) => Err(e),
        }
    }

    /// Records the resolved file of a request for `uri_path` under `top_path`
    /// when `exists` says that it is on disk, and tells whether it did.
    pub fn set_request_path_is_exist(&mut self, top_path: &str, uri_path: &str, exists: bool) -> (r:
        bool)
        ensures
            r == (exists && resolved_path(top_path@, uri_path@) is Some),
            r ==> final(self).request_path is Some && final(self).request_path->Some_0@
                == resolved_path(top_path@, uri_path@)->Some_0,
            !r ==> final(self).request_path == old(self).request_path,
            final(self).encoder == old(self).encoder,
            final(self).keep_alive == old(self).keep_alive,
    {
        if !exists {
            return false;
        }
        match resolve_path(top_path, uri_path) {
            Some(full) => {
                self.request_path = Some(full);
                true
            },
            None => false,
        }
    }

    /// The status line and `Content-Type` line for the resolved file; a
    /// `404` when there is none or its name has no extension.
    pub fn set_content_type(&self) -> (r: Result<String, HttpError>)
        ensures
            match self.request_path {
                None => r is Err && r->Err_0.kind == HttpErrorKind::PathNotFound
                    && r->Err_0.err_data@ == error_reply(HttpErrorKind::PathNotFound),
                Some(p) => match content_type(p@) {
                    None => r is Err && r->Err_0.kind == HttpErrorKind::NoExtension
                        && r->Err_0.err_data@ == error_reply(HttpErrorKind::NoExtension),
                    Some(ct) => r is Ok && r->Ok_0@ == type_head_text(ct, false),
                },
            },
    {
        match &self.request_path {
            None => Err(HttpError::new(HttpErrorKind::PathNotFound)),
            Some(p) => match content_type_of(p.as_str()) {
                None => Err(HttpError::new(HttpErrorKind::NoExtension)),
                Some(ct) => {
                    let mut head = String::from_str("HTTP/1.1 200 OK\r\nContent-Type: ");
                    head.append(ct);
                    head.append("\r\n");
                    proof {
                        reveal_strlit("");
                    }
                    assert(head@ =~= type_head_text(ct@, false));
                    Ok(head)
                },
            },
        }
    }

    /// The `Content-Length` line and the body for `lookup`, gzip-encoded when
    /// the client accepts gzip, or the failure that prevents it.
    pub fn sl_http_fill_file_buffer(&self, lookup: FileLookup) -> (r: Result<Vec<u8>, HttpError>)
        ensures
            match encoded_body(self.encoder, lookup) {
                Ok(b) => r is Ok && r->Ok_0@ == encode_utf8(length_line(b.len())) + b,
                Err(k) => r is Err && r->Err_0.kind == k && r->Err_0.err_data@ == error_reply(k),
            },
    {
        let mut body = match lookup {
            FileLookup::Missing => {
                return Err(HttpError::new(HttpErrorKind::FileOpenError));
            },
            FileLookup::OpenFailed => {
                return Err(HttpError::new(HttpErrorKind::FileOpenError));
            },
            FileLookup::ReadFailed => {
                return Err(HttpError::new(HttpErrorKind::FileReadError));
            },
            FileLookup::Contents(c) => {
                if self.encoder {
                    match gzip_encode(c.as_slice()) {
                        Some(g) => g,
                        None => {
                            return Err(HttpError::new(HttpErrorKind::EncodingError));
                        },
                    }
                } else {
                    c
                }
            },
        };
        let mut line = String::from_str("Content-Length: ");
        append_decimal(&mut line, body.len());
        line.append("\r\n\r\n");
        assert(line@ =~= length_line(body@.len()));
        let mut out = line.as_str().as_bytes_vec();
        out.append(&mut body);
        Ok(out)
    }

    /// The response to a request for `uri_path` under `top_path`, where the
    /// file system gave `lookup` for the resolved path and the time is `now`.
    pub fn build_response(&mut self, top_path: &str, uri_path: &str, lookup: FileLookup, now: i64) -> (r:
        Vec<u8>)
        ensures
            r@ == response_bytes(old(self).encoder, top_path@, uri_path@, lookup, now),
            final(self).encoder == old(self).encoder,
            final(self).keep_alive == old(self).keep_alive,
    {
        let found = match &lookup {
            FileLookup::Missing => false,
            _ => true,
        };
        if !self.set_request_path_is_exist(top_path, uri_path, found) {
            return HttpError::new(HttpErrorKind::PathNotFound).err_data;
        }
        let mut head = match self.set_content_type() {
            Ok(h) => h,
            Err(e) => {
                return e.err_data;
            },
        };
        let mut tail = match self.sl_http_fill_file_buffer(lookup) {
            Ok(t) => t,
            Err(e) => {
                return e.err_data;
            },
        };
        if self.encoder {
            head.append("Content-Encoding: gzip\r\n");
        } else {
            proof {
                reveal_strlit("");
            }
        }
        let dates = date_lines(now);
        let server = "Server: StaticHttp\r\n";
        let mut out = head.as_str().as_bytes_vec();
        let mut date_bytes = dates.as_str().as_bytes_vec();
        let mut server_bytes = server.as_bytes_vec();
        out.append(&mut date_bytes);
        out.append(&mut server_bytes);
        out.append(&mut tail);
        proof {
            let p = resolved_path(top_path@, uri_path@)->Some_0;
            let ct = content_type(p)->Some_0;
            assert(head@ =~= type_head_text(ct, self.encoder));
        }
        out
    }

    /// The response to a request for `uri_path` under `top_path`, where the
    /// file system gave `lookup` for the resolved path, dated now.
    pub fn static_http_process_request(&mut self, top_path: &str, uri_path: &str, lookup: FileLookup) -> (r:
        Vec<u8>)
        ensures
            exists|now: i64| r@ == response_bytes(old(self).encoder, top_path@, uri_path@, lookup, now),
            final(self).encoder == old(self).encoder,
            final(self).keep_alive == old(self).keep_alive,
    {
        let now = now_unix_seconds();
        self.build_response(top_path, uri_path, lookup, now)
    }
}

/// A successful response starts with the status line `200 OK`, and its
/// `Content-Length` line gives exactly the length of the body that follows
/// it; the body is the file itself, or flate2's gzip stream of it when the
/// client accepts gzip.
pub proof fn lemma_ok_response_length(
    gzip: bool,
    top: Seq<char>,
    uri: Seq<char>,
    lookup: FileLookup,
    now: i64,
)
    requires
        resolved_path(top, uri) is Some,
        content_type(resolved_path(top, uri)->Some_0) is Some,
        lookup is Contents,
        encoded_body(gzip, lookup) is Ok,
    ensures
        ({
            let c = lookup->Contents_0@;
            let b = encoded_body(gzip, lookup)->Ok_0;
            &&& b == (if gzip {
                flate2_gzip(c)->Some_0
            } else {
                c
            })
            &&& exists|rest: Seq<char>, mid: Seq<u8>|
                response_bytes(gzip, top, uri, lookup, now) == encode_utf8(
                    "HTTP/1.1 200 OK\r\n"@ + rest,
                ) + mid + encode_utf8(length_line(b.len())) + b
        }),
{
    let p = resolved_path(top, uri)->Some_0;
    let ct = content_type(p)->Some_0;
    let b = encoded_body(gzip, lookup)->Ok_0;
    let rest = "Content-Type: "@ + ct + "\r\n"@ + if gzip {
        "Content-Encoding: gzip\r\n"@
    } else {
        Seq::<char>::empty()
    };
    let mid = encode_utf8(date_lines_text(now)) + encode_utf8(server_line());
    reveal_strlit("HTTP/1.1 200 OK\r\nContent-Type: ");
    reveal_strlit("HTTP/1.1 200 OK\r\n");
    reveal_strlit("Content-Type: ");
    assert(type_head_text(ct, gzip) =~= "HTTP/1.1 200 OK\r\n"@ + rest);
    assert(response_bytes(gzip, top, uri, lookup, now) =~= encode_utf8("HTTP/1.1 200 OK\r\n"@ + rest)
        + mid + encode_utf8(length_line(b.len())) + b);
}

/// The media type of a response follows the extension table: a file with
/// extension `e` is sent with `mime_type(e)`, which is
/// `application/octet-stream` for an extension outside the table, and a file
/// whose name has no `.` gets the `404` reply.
pub proof fn lemma_content_type_from_extension(
    gzip: bool,
    top: Seq<char>,
    uri: Seq<char>,
    lookup: FileLookup,
    now: i64,
)
    requires
        resolved_path(top, uri) is Some,
        !(lookup is Missing),
    ensures
        ({
            let p = resolved_path(top, uri)->Some_0;
            let r = response_bytes(gzip, top, uri, lookup, now);
            &&& extension_of(p) is None ==> r == encode_utf8("HTTP/1.1 404 OK\r\n\r\n"@)
            &&& extension_of(p) is Some && encoded_body(gzip, lookup) is Ok ==> exists|rest: Seq<u8>|
                r == encode_utf8(type_head_text(mime_type(extension_of(p)->Some_0), gzip)) + rest
            &&& extension_of(p) is Some && !known_extension(extension_of(p)->Some_0) ==> mime_type(
                extension_of(p)->Some_0,
            ) == "application/octet-stream"@
        }),
{
    let p = resolved_path(top, uri)->Some_0;
    let r = response_bytes(gzip, top, uri, lookup, now);
    if extension_of(p) is Some && encoded_body(gzip, lookup) is Ok {
        let e = extension_of(p)->Some_0;
        let b = encoded_body(gzip, lookup)->Ok_0;
        let rest = encode_utf8(date_lines_text(now)) + encode_utf8(server_line()) + encode_utf8(
            length_line(b.len()),
        ) + b;
        assert(r =~= encode_utf8(type_head_text(mime_type(e), gzip)) + rest);
    }
}

/// Whether `ext` is one of the extensions of the media-type table.
pub open spec fn known_extension(ext: Seq<char>) -> bool {
    ext == "html"@ || ext == "css"@ || ext == "bmp"@ || ext == "img"@ || ext == "jpe"@ || ext
        == "jpeg"@ || ext == "jpg"@ || ext == "js"@ || ext == "mp4"@ || ext == "xml"@ || ext
        == "xquery"@ || ext == "xsl"@
}

/// The same request answered at two instants gives the same bytes, except
/// for the `Date` and `Expires` lines.
pub proof fn lemma_only_dates_differ(
    gzip: bool,
    top: Seq<char>,
    uri: Seq<char>,
    lookup: FileLookup,
    now1: i64,
    now2: i64,
)
    ensures
        ({
            let r1 = response_bytes(gzip, top, uri, lookup, now1);
            let r2 = response_bytes(gzip, top, uri, lookup, now2);
            r1 == r2 || exists|pre: Seq<u8>, post: Seq<u8>|
                r1 == pre + encode_utf8(date_lines_text(now1)) + post && r2 == pre + encode_utf8(
                    date_lines_text(now2),
                ) + post
        }),
{
    match resolved_path(top, uri) {
        None => {},
        Some(p) => {
            if !(lookup is Missing) {
                match content_type(p) {
                    None => {},
                    Some(ct) => match encoded_body(gzip, lookup) {
                        Err(k) => {},
                        Ok(b) => {
                            let pre = encode_utf8(type_head_text(ct, gzip));
                            let post = encode_utf8(server_line()) + encode_utf8(
                                length_line(b.len()),
                            ) + b;
                            assert(response_bytes(gzip, top, uri, lookup, now1) =~= pre
                                + encode_utf8(date_lines_text(now1)) + post);
                            assert(response_bytes(gzip, top, uri, lookup, now2) =~= pre
                                + encode_utf8(date_lines_text(now2)) + post);
                        },
                    },
                }
            }
        },
    }
}

/// A request whose last `Connection` header is `keep-alive` keeps its
/// connection open, whatever was decided before its headers were read.
pub proof fn lemma_keep_alive_header_keeps_connection(hs: Seq<(Seq<u8>, Seq<u8>)>, init: bool)
    requires
        last_header_value(hs, connection_name()) == Some(keep_alive_token()),
    ensures
        keep_alive_after(hs, init),
{
    assert(matches_ignoring_case(keep_alive_token(), keep_alive_token()));
}

} // verus!
