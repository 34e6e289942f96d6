use std::io::Read;

use static_http::clock::date_lines;
use static_http::error::HttpErrorKind;
use static_http::response::{FileLookup, RequestConfig};

fn split_head(resp: &[u8]) -> (String, Vec<u8>) {
    let pos = resp
        .windows(4)
        .position(|w| w == b"\r\n\r\n")
        .expect("response has a blank line");
    (
        String::from_utf8(resp[..pos + 4].to_vec()).unwrap(),
        resp[pos + 4..].to_vec(),
    )
}

fn gunzip(data: &[u8]) -> Vec<u8> {
    let mut out = Vec::new();
    flate2::read::GzDecoder::new(data).read_to_end(&mut out).unwrap();
    out
}

fn content_length(head: &str) -> usize {
    let line = head
        .lines()
        .find(|l| l.starts_with("Content-Length: "))
        .expect("Content-Length line");
    line["Content-Length: ".len()..].parse().unwrap()
}

fn serve(request: &[u8], top: &str, lookup: FileLookup, now: i64) -> (RequestConfig, Vec<u8>) {
    let mut cfg = RequestConfig::new();
    let req = match cfg.read_request(request) {
        Ok(r) => r,
        Err(_) => panic!("request did not parse"),
    };
    let resp = cfg.build_response(top, &req.path, lookup, now);
    (cfg, resp)
}

#[test]
fn gzip_index_scenario() {
    let (cfg, resp) = serve(
        b"GET / HTTP/1.1\r\nAccept-Encoding: gzip\r\n\r\n",
        "/site",
        FileLookup::Contents(b"<html></html>".to_vec()),
        0,
    );
    assert_eq!(cfg.request_path.as_deref(), Some("/site/index.html"));
    let (head, body) = split_head(&resp);
    assert!(head.starts_with("HTTP/1.1 200 OK\r\n"));
    assert!(head.contains("Content-Type: text/html; charset=UTF-8\r\n"));
    assert!(head.contains("Content-Encoding: gzip\r\n"));
    assert_eq!(content_length(&head), body.len());
    assert_eq!(gunzip(&body), b"<html></html>".to_vec());
}

#[test]
fn missing_file_is_plain_404() {
    let (_, resp) = serve(
        b"GET /missing.html HTTP/1.1\r\n\r\n",
        "/site",
        FileLookup::Missing,
        0,
    );
    assert_eq!(resp, b"HTTP/1.1 404 OK\r\n\r\n".to_vec());
}

#[test]
fn exact_plain_response() {
    let (_, resp) = serve(
        b"GET /a.css HTTP/1.1\r\n\r\n",
        "/site",
        FileLookup::Contents(b"body{}".to_vec()),
        0,
    );
    let expected = "HTTP/1.1 200 OK\r\nContent-Type: text/css\r\n\
        Date: Thu, 01 Jan 1970 00:00:00 GMT\r\n\
        Expires: Sun, 04 Jan 1970 00:00:00 GMT\r\n\
        Server: StaticHttp\r\nContent-Length: 6\r\n\r\nbody{}";
    assert_eq!(String::from_utf8(resp).unwrap(), expected);
}

#[test]
fn content_length_matches_body() {
    for size in [0usize, 1, 9, 10, 99, 100, 12345] {
        let data = vec![b'x'; size];
        for accept in ["", "Accept-Encoding: gzip, deflate\r\n"] {
            let request = format!("GET /f.bin HTTP/1.1\r\n{}\r\n", accept);
            let (_, resp) = serve(
                request.as_bytes(),
                "/r",
                FileLookup::Contents(data.clone()),
                1_700_000_000,
            );
            let (head, body) = split_head(&resp);
            assert!(head.starts_with("HTTP/1.1 200 OK\r\n"));
            assert_eq!(content_length(&head), body.len());
            if accept.is_empty() {
                assert_eq!(body, data);
            } else {
                assert_eq!(gunzip(&body), data);
            }
        }
    }
}

#[test]
fn gzip_round_trip_of_several_files() {
    let files: Vec<Vec<u8>> = vec![
        Vec::new(),
        b"a".to_vec(),
        b"<html><body>hello</body></html>".repeat(50),
        (0..=255u8).collect(),
    ];
    for data in files {
        let (_, resp) = serve(
            b"GET /x.html HTTP/1.1\r\naccept-encoding: GZIP, gzip\r\n\r\n",
            "/r",
            FileLookup::Contents(data.clone()),
            0,
        );
        let (head, body) = split_head(&resp);
        assert!(head.contains("Content-Encoding: gzip\r\n"));
        assert_ne!(body, data);
        assert_eq!(gunzip(&body), data);
    }
}

#[test]
fn content_types_follow_the_table() {
    let table = [
        ("a.html", "text/html; charset=UTF-8"),
        ("a.css", "text/css"),
        ("a.bmp", "application/x-bmp"),
        ("a.img", "application/x-img"),
        ("a.jpe", "image/jpeg"),
        ("a.jpeg", "image/jpeg"),
        ("a.jpg", "image/jpeg"),
        ("a.js", "application/x-javascript"),
        ("a.mp4", "video/mpeg4"),
        ("a.xml", "text/xml"),
        ("a.xquery", "text/xml"),
        ("a.xsl", "text/xml"),
        ("a.tar.gz", "application/octet-stream"),
        ("a.HTML", "application/octet-stream"),
        ("a.", "application/octet-stream"),
    ];
    for (name, ct) in table {
        let request = format!("GET /dir.d/{} HTTP/1.1\r\n\r\n", name);
        let (_, resp) = serve(request.as_bytes(), "/r", FileLookup::Contents(b"z".to_vec()), 0);
        let (head, _) = split_head(&resp);
        assert!(head.contains(&format!("Content-Type: {}\r\n", ct)), "{}", name);
    }
}

#[test]
fn name_without_dot_is_404() {
    let (_, resp) = serve(
        b"GET /dir.d/README HTTP/1.1\r\n\r\n",
        "/r",
        FileLookup::Contents(b"z".to_vec()),
        0,
    );
    assert_eq!(resp, b"HTTP/1.1 404 OK\r\n\r\n".to_vec());
}

#[test]
fn file_failures_give_500() {
    for lookup in [FileLookup::OpenFailed, FileLookup::ReadFailed] {
        let (_, resp) = serve(b"GET /a.html HTTP/1.1\r\n\r\n", "/r", lookup, 0);
        assert_eq!(resp, b"HTTP/1.1 500 Internal Server Error\r\n\r\n".to_vec());
    }
}

#[test]
fn parent_segments_are_refused() {
    for path in ["/../etc/passwd.txt", "/a/../../b.html", "/..", "/a/..\\b.html"] {
        let request = format!("GET {} HTTP/1.1\r\n\r\n", path);
        let (cfg, resp) = serve(request.as_bytes(), "/r", FileLookup::Contents(b"z".to_vec()), 0);
        assert_eq!(resp, b"HTTP/1.1 404 OK\r\n\r\n".to_vec(), "{}", path);
        assert!(cfg.request_path.is_none());
    }
    let (_, resp) = serve(
        b"GET /a..b.html HTTP/1.1\r\n\r\n",
        "/r",
        FileLookup::Contents(b"z".to_vec()),
        0,
    );
    assert!(resp.starts_with(b"HTTP/1.1 200 OK\r\n"));
}

#[test]
fn same_request_differs_only_in_dates() {
    let request = b"GET /i.html HTTP/1.1\r\nAccept-Encoding: gzip\r\n\r\n";
    let contents = b"<p>same</p>".to_vec();
    let (_, a) = serve(request, "/r", FileLookup::Contents(contents.clone()), 1_000_000);
    let (_, b) = serve(request, "/r", FileLookup::Contents(contents.clone()), 1_000_000);
    assert_eq!(a, b);
    let (_, c) = serve(request, "/r", FileLookup::Contents(contents), 2_000_000);
    let strip = |r: &[u8]| -> Vec<u8> {
        let (head, body) = split_head(r);
        let kept: Vec<&str> = head
            .split("\r\n")
            .filter(|l| !l.starts_with("Date: ") && !l.starts_with("Expires: "))
            .collect();
        let mut out = kept.join("\r\n").into_bytes();
        out.extend(body);
        out
    };
    assert_ne!(a, c);
    assert_eq!(strip(&a), strip(&c));
}

#[test]
fn malformed_request_gives_400() {
    let mut cfg = RequestConfig::new();
    for bytes in [&b"GARBAGE\r\n\r\n"[..], b"GET / HTTP/1.1\r\nHost: x\r\n", b""] {
        match cfg.read_request(bytes) {
            Ok(_) => panic!("accepted a malformed request"),
            Err(e) => {
                assert_eq!(e.kind, HttpErrorKind::MalformedRequest);
                assert_eq!(e.err_data, b"HTTP/1.1 400 Bad Request\r\n\r\n".to_vec());
            }
        }
    }
    assert!(!cfg.keep_alive);
}

#[test]
fn header_decisions_ignore_name_case() {
    let mut cfg = RequestConfig::new();
    let req = cfg
        .read_request(b"GET /x HTTP/1.1\r\nCONNECTION: Keep-Alive\r\nACCEPT-ENCODING: br, gzip\r\n\r\n")
        .ok()
        .unwrap();
    assert_eq!(req.method, "GET");
    assert_eq!(req.path, "/x");
    assert_eq!(req.headers.len(), 2);
    assert!(cfg.keep_alive);
    assert!(cfg.encoder);

    let mut cfg = RequestConfig::new();
    cfg.read_request(b"GET /x HTTP/1.1\r\nConnection: keep-alive\r\nConnection: close\r\nAccept-Encoding: deflate\r\n\r\n")
        .ok()
        .unwrap();
    assert!(!cfg.keep_alive);
    assert!(!cfg.encoder);
}

#[test]
fn setters_record_header_values() {
    let mut cfg = RequestConfig::new();
    assert!(!cfg.encoder && !cfg.keep_alive && cfg.request_path.is_none());
    cfg.set_encode(b"deflate, gzip;q=1.0");
    assert!(cfg.encoder);
    cfg.set_encode(b"gzi");
    assert!(!cfg.encoder);
    cfg.set_keep_alive(b"keep-alive");
    assert!(cfg.keep_alive);
    cfg.set_keep_alive(b"keep-alive, upgrade");
    assert!(!cfg.keep_alive);
}

#[test]
fn path_and_content_type_setters() {
    let mut cfg = RequestConfig::new();
    assert!(!cfg.set_request_path_is_exist("/r", "/a.html", false));
    assert!(cfg.request_path.is_none());
    match cfg.set_content_type() {
        Ok(_) => panic!("no file yet"),
        Err(e) => assert_eq!(e.kind, HttpErrorKind::PathNotFound),
    }
    assert!(cfg.set_request_path_is_exist("/r", "/docs/", true));
    assert_eq!(cfg.request_path.as_deref(), Some("/r/docs/index.html"));
    assert_eq!(
        cfg.set_content_type().ok().unwrap(),
        "HTTP/1.1 200 OK\r\nContent-Type: text/html; charset=UTF-8\r\n"
    );
    assert!(cfg.set_request_path_is_exist("/r", "/LICENSE", true));
    match cfg.set_content_type() {
        Ok(_) => panic!("no extension"),
        Err(e) => {
            assert_eq!(e.kind, HttpErrorKind::NoExtension);
            assert_eq!(e.err_data, b"HTTP/1.1 404 OK\r\n\r\n".to_vec());
        }
    }
}

#[test]
fn fill_buffer_writes_length_and_body() {
    let mut cfg = RequestConfig::new();
    let out = cfg
        .sl_http_fill_file_buffer(FileLookup::Contents(b"0123456789".to_vec()))
        .ok()
        .unwrap();
    assert_eq!(out, b"Content-Length: 10\r\n\r\n0123456789".to_vec());
    cfg.set_encode(b"gzip");
    let out = cfg
        .sl_http_fill_file_buffer(FileLookup::Contents(b"0123456789".to_vec()))
        .ok()
        .unwrap();
    let (head, body) = split_head(&out);
    assert_eq!(content_length(&head), body.len());
    assert_eq!(gunzip(&body), b"0123456789".to_vec());
}

#[test]
fn date_lines_are_http_dates() {
    assert_eq!(
        date_lines(784111777),
        "Date: Sun, 06 Nov 1994 08:49:37 GMT\r\nExpires: Wed, 09 Nov 1994 08:49:37 GMT\r\n"
    );
    assert_eq!(date_lines(i64::MAX), "");
}

#[test]
fn process_request_uses_current_time() {
    let mut cfg = RequestConfig::new();
    let resp = cfg.static_http_process_request("/r", "/a.js", FileLookup::Contents(b"1;".to_vec()));
    let (head, body) = split_head(&resp);
    assert!(head.starts_with("HTTP/1.1 200 OK\r\nContent-Type: application/x-javascript\r\nDate: "));
    assert!(head.contains("\r\nExpires: "));
    assert!(head.ends_with("Server: StaticHttp\r\nContent-Length: 2\r\n\r\n"));
    assert_eq!(body, b"1;".to_vec());
}
