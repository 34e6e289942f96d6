use static_http::encoding::{append_decimal, gzip_encode};
use static_http::path::{climbs_out, content_type_of, mime_type_of, resolve_path, same_text};
use static_http::request::{eq_ignoring_case, find_bytes, parse_request};

#[test]
fn parses_request_line_and_headers() {
    let req = parse_request(b"GET /a/b.css?x=1 HTTP/1.1\r\nHost: h\r\nX-Y: \xff\r\n\r\nbody")
        .ok()
        .unwrap();
    assert_eq!(req.method, "GET");
    assert_eq!(req.path, "/a/b.css?x=1");
    assert_eq!(req.headers.len(), 2);
    assert_eq!(req.headers[0].name, b"Host".to_vec());
    assert_eq!(req.headers[0].value, b"h".to_vec());
    assert_eq!(req.headers[1].value, vec![0xffu8]);
}

#[test]
fn too_many_headers_is_malformed() {
    let mut text = String::from("GET / HTTP/1.1\r\n");
    for i in 0..65 {
        text.push_str(&format!("H{}: v\r\n", i));
    }
    text.push_str("\r\n");
    assert!(parse_request(text.as_bytes()).is_err());
}

#[test]
fn resolves_paths() {
    assert_eq!(resolve_path("/site", "/").as_deref(), Some("/site/index.html"));
    assert_eq!(resolve_path("/site", "/a/").as_deref(), Some("/site/a/index.html"));
    assert_eq!(resolve_path("/site", "/a.txt").as_deref(), Some("/site/a.txt"));
    assert_eq!(resolve_path("", "").as_deref(), Some(""));
    assert_eq!(resolve_path("/site", "/../x"), None);
    assert!(climbs_out(".."));
    assert!(!climbs_out("/...txt"));
    assert!(!climbs_out("/a..b"));
}

#[test]
fn content_type_uses_last_dot_of_last_segment() {
    assert_eq!(content_type_of("/r.d/x.min.js"), Some("application/x-javascript"));
    assert_eq!(content_type_of("/r.d/x"), None);
    assert_eq!(content_type_of("noslash.html"), Some("text/html; charset=UTF-8"));
    assert_eq!(content_type_of(""), None);
    assert_eq!(mime_type_of("zip"), "application/octet-stream");
    assert!(same_text("ab", "ab"));
    assert!(!same_text("ab", "abc"));
}

#[test]
fn byte_helpers() {
    assert!(find_bytes(b"x, gzip", b"gzip"));
    assert!(find_bytes(b"abc", b""));
    assert!(!find_bytes(b"gz", b"gzip"));
    assert!(eq_ignoring_case(b"Keep-ALIVE", b"keep-alive"));
    assert!(!eq_ignoring_case(b"keep-alive", b"KEEP-ALIVE"));
}

#[test]
fn decimal_and_gzip() {
    let mut s = String::from("n=");
    append_decimal(&mut s, 0);
    append_decimal(&mut s, 1234567);
    assert_eq!(s, "n=01234567");
    let g = gzip_encode(b"hello").unwrap();
    assert_eq!(&g[..2], &[0x1f, 0x8b]);
    assert_ne!(g, b"hello".to_vec());
}
