use vstd::prelude::*;
use vstd::string::*;
use vstd::utf8::*;

verus! {

/// The ways in which serving one request or one connection can fail.
#[derive(Clone, Copy, Debug, PartialEq, Eq, Structural)]
pub enum HttpErrorKind {
    /// The received bytes are not one complete, well-formed request.
    MalformedRequest,
    /// The requested path does not name an existing file under the root.
    PathNotFound,
    /// The resolved file name has no `.` and therefore no extension.
    NoExtension,
    /// The resolved file could not be opened.
    FileOpenError,
    /// The resolved file could not be read.
    FileReadError,
    /// The file contents could not be gzip-encoded.
    EncodingError,
    /// The response could not be written to the socket.
    WriteError,
    /// The socket could not be shut down in an orderly way.
    ShutdownError,
}

/// The text sent to the client when serving fails with `kind`: `400` for an
/// unparseable request, `404` for a missing resource, `500` for an internal
/// failure, nothing for failures of the connection itself.
pub open spec fn error_reply_text(kind: HttpErrorKind) -> Seq<char> {
    match kind {
        HttpErrorKind::MalformedRequest => "HTTP/1.1 400 Bad Request\r\n\r\n"@,
        HttpErrorKind::PathNotFound => "HTTP/1.1 404 OK\r\n\r\n"@,
        HttpErrorKind::NoExtension => "HTTP/1.1 404 OK\r\n\r\n"@,
        HttpErrorKind::FileOpenError => "HTTP/1.1 500 Internal Server Error\r\n\r\n"@,
        HttpErrorKind::FileReadError => "HTTP/1.1 500 Internal Server Error\r\n\r\n"@,
        HttpErrorKind::EncodingError => "HTTP/1.1 500 Internal Server Error\r\n\r\n"@,
        HttpErrorKind::WriteError => Seq::empty(),
        HttpErrorKind::ShutdownError => Seq::empty(),
    }
}

/// The bytes sent to the client when serving fails with `kind`.
pub open spec fn error_reply(kind: HttpErrorKind) -> Seq<u8> {
    encode_utf8(error_reply_text(kind))
}

/// The log line that describes a failure of kind `kind`.
pub open spec fn error_message(kind: HttpErrorKind) -> Seq<char> {
    match kind {
        HttpErrorKind::MalformedRequest => "malformed request"@,
        HttpErrorKind::PathNotFound => "there is no file for the request"@,
        HttpErrorKind::NoExtension => "the file name has no extension"@,
        HttpErrorKind::FileOpenError => "cannot open the file"@,
        HttpErrorKind::FileReadError => "cannot read the file"@,
        HttpErrorKind::EncodingError => "cannot gzip-encode the file"@,
        HttpErrorKind::WriteError => "cannot write the response"@,
        HttpErrorKind::ShutdownError => "cannot shut the connection down"@,
    }
}

/// A failure while serving: its kind, a log line, and the bytes that the
/// client receives in place of a regular response.
pub struct HttpError {
    pub kind: HttpErrorKind,
    pub message: String,
    pub err_data: Vec<u8>,
}

impl HttpError {
    /// The error of kind `kind`, with its log line and its reply bytes.
    pub fn new(kind: HttpErrorKind) -> (e: HttpError)
        ensures
            e.kind == kind,
            e.message@ == error_message(kind),
            e.err_data@ == error_reply(kind),
    {
        let reply: &str = match kind {
            HttpErrorKind::MalformedRequest => "HTTP/1.1 400 Bad Request\r\n\r\n",
            HttpErrorKind::PathNotFound => "HTTP/1.1 404 OK\r\n\r\n",
            HttpErrorKind::NoExtension => "HTTP/1.1 404 OK\r\n\r\n",
            HttpErrorKind::FileOpenError => "HTTP/1.1 500 Internal Server Error\r\n\r\n",
            HttpErrorKind::FileReadError => "HTTP/1.1 500 Internal Server Error\r\n\r\n",
            HttpErrorKind::EncodingError => "HTTP/1.1 500 Internal Server Error\r\n\r\n",
            HttpErrorKind::WriteError => "",
            HttpErrorKind::ShutdownError => "",
        };
        let message: &str = match kind {
            HttpErrorKind::MalformedRequest => "malformed request",
            HttpErrorKind::PathNotFound => "there is no file for the request",
            HttpErrorKind::NoExtension => "the file name has no extension",
            HttpErrorKind::FileOpenError => "cannot open the file",
            HttpErrorKind::FileReadError => "cannot read the file",
            HttpErrorKind::EncodingError => "cannot gzip-encode the file",
            HttpErrorKind::WriteError => "cannot write the response",
            HttpErrorKind::ShutdownError => "cannot shut the connection down",
        };
        proof {
            reveal_strlit("");
        }
        HttpError { kind, message: String::from_str(message), err_data: reply.as_bytes_vec() }
    }
}

} // verus!
