use fluent_uri::encoding::{EStr, encoder::Path};
use wirehead::version::{Dynamic, V1, V1_1};
use wirehead::{
    Header, HeaderWriteError, Method, Query, Request, RequestWriteError, Response,
    ResponseWriteError, StatusCode, Version, write_header, write_header_unchecked,
};

fn status(code: u16) -> StatusCode {
    StatusCode::from_u16(code).unwrap()
}

#[test]
fn request() {
    let mut buf = Vec::new();

    let mut req = Request::new(Method::Get)
        .v1_1()
        .header("a", b"1")
        .header("b", b"2")
        .header("c", b"3");

    req.write_to(&mut buf).unwrap();

    let mut headers = [httparse::EMPTY_HEADER; 64];
    let mut preq = httparse::Request::new(&mut headers);

    assert!(preq.parse(&buf).unwrap().is_complete());
    assert_eq!(preq.headers.len(), 3);
}

#[test]
fn request_with_query() {
    let mut buf = Vec::new();

    let mut req = Request::new(Method::Get)
        .v1_1()
        .header("a", b"1")
        .header("b", b"2")
        .header("c", b"3")
        .path("abc")
        .query("a=b")
        .query("b=c");

    req.write_to(&mut buf).unwrap();

    let mut headers = [httparse::EMPTY_HEADER; 64];
    let mut preq = httparse::Request::new(&mut headers);

    assert!(preq.parse(&buf).unwrap().is_complete());
    assert_eq!(preq.headers.len(), 3);

    let path = preq.path.unwrap();

    let query_pos = path.find(|ch| ch == '?').unwrap();
    let (path, query) = path.split_at(query_pos);
    let p = EStr::<Path>::new(path).unwrap();
    let q = EStr::<fluent_uri::encoding::encoder::Query>::new(query).unwrap();

    assert_eq!(p.as_str(), "abc");
    assert_eq!(q.as_str(), "?a=b&b=c");
}

#[test]
fn response() {
    let mut res = Response::new(status(http::StatusCode::OK.as_u16()))
        .v1_1()
        .header("d", b"4")
        .header("e", b"5")
        .header("f", b"6");

    let mut buf = Vec::new();
    res.write_to(&mut buf).unwrap();

    let mut headers_2 = [httparse::EMPTY_HEADER; 64];
    let mut pres = httparse::Response::new(&mut headers_2);

    assert!(pres.parse(&buf).unwrap().is_complete());
    assert_eq!(pres.headers.len(), 3)
}

#[test]
fn request_round_trip_keeps_header_order() {
    let mut buf = Vec::new();
    let mut req = Request::post()
        .v1_1()
        .path("/upload")
        .header("Host", b"example.com")
        .header("X-Dup", b"one")
        .header("X-Dup", b"two")
        .header("Content_Type", b"text/plain");
    let n = req.write_to(&mut buf).unwrap();
    assert_eq!(n, buf.len());

    let mut headers = [httparse::EMPTY_HEADER; 16];
    let mut preq = httparse::Request::new(&mut headers);
    assert!(preq.parse(&buf).unwrap().is_complete());
    assert_eq!(preq.method, Some("POST"));
    assert_eq!(preq.path, Some("/upload"));
    assert_eq!(preq.version, Some(1));
    let got: Vec<(&str, &[u8])> = preq.headers.iter().map(|h| (h.name, h.value)).collect();
    assert_eq!(
        got,
        vec![
            ("Host", &b"example.com"[..]),
            ("X-Dup", &b"one"[..]),
            ("X-Dup", &b"two"[..]),
            ("Content_Type", &b"text/plain"[..]),
        ]
    );
}

#[test]
fn request_wire_bytes_are_exact() {
    let mut buf = Vec::new();
    let mut req = Request::get()
        .v1_1()
        .header("a", b"1")
        .path("abc")
        .query("a=b")
        .query("b=c");
    let n = req.write_to(&mut buf).unwrap();
    let expected = b"GET abc?a=b&b=c HTTP/1.1\r\na: 1\r\n\r\n";
    assert_eq!(buf, expected.to_vec());
    assert_eq!(n, expected.len());
}

#[test]
fn request_without_path_uses_slash() {
    let mut buf = Vec::new();
    let n = Request::head().v1().write_to(&mut buf).unwrap();
    assert_eq!(buf, b"HEAD / HTTP/1.0\r\n\r\n".to_vec());
    assert_eq!(n, 19);
}

#[test]
fn method_names() {
    let cases: Vec<(Request<'_, V1_1>, &str)> = vec![
        (Request::get().v1_1(), "GET"),
        (Request::head().v1_1(), "HEAD"),
        (Request::post().v1_1(), "POST"),
        (Request::put().v1_1(), "PUT"),
        (Request::delete().v1_1(), "DELETE"),
        (Request::connect().v1_1(), "CONNECT"),
        (Request::options().v1_1(), "OPTIONS"),
        (Request::trace().v1_1(), "TRACE"),
        (Request::patch().v1_1(), "PATCH"),
        (Request::new(Method::Custom("PURGE")).v1_1(), "PURGE"),
    ];
    for (mut req, name) in cases {
        let mut buf = Vec::new();
        req.write_to(&mut buf).unwrap();
        assert_eq!(buf, format!("{name} / HTTP/1.1\r\n\r\n").into_bytes());
    }
    assert_eq!(Method::Custom("X").as_str(), "X");
}

#[test]
fn count_matches_bytes_appended() {
    let mut buf = b"prefix".to_vec();
    let mut req = Request::get().v1_1().path("/x").query("k=v").header("h", b"v");
    let n = req.write_to(&mut buf).unwrap();
    assert_eq!(n, buf.len() - 6);

    let mut buf = b"xy".to_vec();
    let mut res = Response::new(status(404)).v1().header("h", b"v");
    let n = res.write_to(&mut buf).unwrap();
    assert_eq!(n, buf.len() - 2);
    assert_eq!(buf, b"xyHTTP/1.0 404 Not Found\r\nh: v\r\n\r\n".to_vec());
}

#[test]
fn unspecified_version_is_refused() {
    let mut buf = Vec::new();
    let mut req = Request::get().header("a", b"1");
    assert_eq!(req.write_to(&mut buf), Err(RequestWriteError::InvalidVersion));
    assert!(buf.is_empty());

    let mut res = Response::new(status(200)).header("a", b"1");
    assert_eq!(res.write_to(&mut buf), Err(ResponseWriteError::InvalidVersion));
    assert!(buf.is_empty());
}

#[test]
fn version_sanity_check() {
    let mut buf = Vec::new();
    assert!(Request::get().version(Dynamic("2.0")).write_to(&mut buf).is_ok());
    assert!(buf.starts_with(b"GET / HTTP/2.0\r\n"));
    let mut buf = Vec::new();
    assert!(Request::get().version(Dynamic("1.x")).write_to(&mut buf).is_ok());
    let mut buf = Vec::new();
    assert_eq!(
        Request::get().version(Dynamic("1.10")).write_to(&mut buf),
        Err(RequestWriteError::InvalidVersion)
    );
    assert_eq!(
        Request::get().version(Dynamic("abc")).write_to(&mut buf),
        Err(RequestWriteError::InvalidVersion)
    );
    assert!(buf.is_empty());
    assert_eq!(V1.as_str(), "1.0");
    assert_eq!(V1_1.as_str(), "1.1");
    assert_eq!(wirehead::version::UNSPECIFIED.as_str(), "");
    assert_eq!(Dynamic("9.9").as_str(), "9.9");
}

#[test]
fn second_write_emits_no_headers_or_queries() {
    let mut req = Request::get().v1_1().path("p").query("q=1").header("a", b"1");
    let mut first = Vec::new();
    req.write_to(&mut first).unwrap();
    assert_eq!(first, b"GET p?q=1 HTTP/1.1\r\na: 1\r\n\r\n".to_vec());
    let mut second = Vec::new();
    let n = req.write_to(&mut second).unwrap();
    assert_eq!(second, b"GET p HTTP/1.1\r\n\r\n".to_vec());
    assert_eq!(n, second.len());

    let mut res = Response::new(status(200)).v1_1().header("a", b"1");
    let mut first = Vec::new();
    res.write_to(&mut first).unwrap();
    let mut second = Vec::new();
    res.write_to(&mut second).unwrap();
    assert_eq!(second, b"HTTP/1.1 200 OK\r\n\r\n".to_vec());
}

#[test]
fn invalid_path_is_refused() {
    let mut buf = Vec::new();
    assert_eq!(
        Request::get().v1_1().path("").write_to(&mut buf),
        Err(RequestWriteError::InvalidPath)
    );
    assert_eq!(
        Request::get().v1_1().path("a b").write_to(&mut buf),
        Err(RequestWriteError::InvalidPath)
    );
    assert!(buf.is_empty());
    assert!(Request::get().v1_1().path("/a%20b").write_to(&mut buf).is_ok());
}

#[test]
fn invalid_query_is_refused_after_earlier_fragments() {
    let mut buf = Vec::new();
    let mut req = Request::get().v1_1().path("/p").query("a=1").query("b c").header("h", b"v");
    assert_eq!(req.write_to(&mut buf), Err(RequestWriteError::InvalidQuery));
    assert_eq!(buf, b"GET /p?a=1".to_vec());
}

#[test]
fn invalid_header_reports_offset() {
    let mut buf = Vec::new();
    let mut req = Request::get().v1_1().header("ok", b"1").header("bad name", b"2");
    let err = req.write_to(&mut buf).unwrap_err();
    let line = b"GET / HTTP/1.1\r\nok: 1\r\n";
    assert_eq!(
        err,
        RequestWriteError::InvalidHeader {
            buffer_offset: line.len(),
            err: HeaderWriteError::InvalidName(3),
        }
    );
    assert_eq!(buf, line.to_vec());

    let mut buf = Vec::new();
    let mut res = Response::new(status(200)).v1_1().header("x", b"a\nb");
    assert_eq!(
        res.write_to(&mut buf),
        Err(ResponseWriteError::InvalidHeader {
            buffer_offset: b"HTTP/1.1 200 OK\r\n".len(),
            err: HeaderWriteError::InvalidValue(1),
        })
    );
}

#[test]
fn header_writer_counts_bytes() {
    let mut buf = Vec::new();
    let h = Header { name: "Content-Length_2", value: b"12 \t ok" };
    let n = write_header(&mut buf, h).unwrap();
    assert_eq!(n, 16 + 2 + 7 + 2);
    assert_eq!(buf, b"Content-Length_2: 12 \t ok\r\n".to_vec());

    let mut buf = Vec::new();
    assert_eq!(write_header(&mut buf, Header { name: "", value: b"" }), Ok(4));
    assert_eq!(buf, b": \r\n".to_vec());
}

#[test]
fn header_writer_reports_first_bad_index() {
    let mut buf = Vec::new();
    assert_eq!(
        write_header(&mut buf, Header { name: "ab:c!", value: b"v" }),
        Err(HeaderWriteError::InvalidName(2))
    );
    assert_eq!(
        write_header(&mut buf, Header { name: "héllo", value: b"v" }),
        Err(HeaderWriteError::InvalidName(1))
    );
    assert_eq!(
        write_header(&mut buf, Header { name: "ok", value: b"abc\0\r" }),
        Err(HeaderWriteError::InvalidValue(3))
    );
    assert_eq!(
        write_header(&mut buf, Header { name: "ok", value: b"\rx" }),
        Err(HeaderWriteError::InvalidValue(0))
    );
    assert_eq!(
        write_header(&mut buf, Header { name: "b d", value: b"\n" }),
        Err(HeaderWriteError::InvalidName(1))
    );
    assert!(buf.is_empty());
}

#[test]
fn header_writer_unchecked_writes_anything() {
    let mut buf = Vec::new();
    let n = write_header_unchecked(&mut buf, Header { name: "a b", value: b"x\ny" });
    assert_eq!(buf, b"a b: x\ny\r\n".to_vec());
    assert_eq!(n, buf.len());
}

#[test]
fn headers_and_queries_in_bulk() {
    let hs = vec![Header { name: "a", value: b"1" }, Header { name: "b", value: b"2" }];
    let qs = vec![Query::new("x=1"), Query::new("y=2")];
    let mut req = Request::get().v1_1().path("/s").queries(qs).header("c", b"3").headers(hs);
    let mut buf = Vec::new();
    req.write_to(&mut buf).unwrap();
    assert_eq!(buf, b"GET /s?x=1&y=2 HTTP/1.1\r\nc: 3\r\na: 1\r\nb: 2\r\n\r\n".to_vec());

    let mut res = Response::new(status(201))
        .headers(vec![Header { name: "z", value: b"9" }])
        .version(V1_1);
    let mut buf = Vec::new();
    res.write_to(&mut buf).unwrap();
    assert_eq!(buf, b"HTTP/1.1 201 Created\r\nz: 9\r\n\r\n".to_vec());
}

#[test]
fn unchecked_request_skips_validation() {
    let mut req = Request::get().path("a b").query("c d").header("bad name", b"x");
    let mut buf = Vec::new();
    let n = req.write_to_unchecked(&mut buf);
    assert_eq!(buf, b"GET a b?c d HTTP/\r\nbad name: x\r\n\r\n".to_vec());
    assert_eq!(n, buf.len());
}

#[test]
fn unchecked_response_skips_validation() {
    let mut res = Response::new(status(500)).header("bad name", b"x");
    let mut buf = Vec::new();
    let n = res.write_to_unchecked(&mut buf);
    assert_eq!(buf, b"HTTP/ 500 Internal Server Error\r\nbad name: x\r\n\r\n".to_vec());
    assert_eq!(n, buf.len());
}

#[test]
fn response_without_registered_reason() {
    let mut buf = Vec::new();
    let n = Response::new(status(299)).v1_1().write_to(&mut buf).unwrap();
    assert_eq!(buf, b"HTTP/1.1 299 \r\n\r\n".to_vec());
    assert_eq!(n, 17);
}

#[test]
fn response_with_given_reason() {
    let mut buf = Vec::new();
    let n = Response::new(status(200)).v1_1().write_with_reason(&mut buf, "Fine").unwrap();
    assert_eq!(buf, b"HTTP/1.1 200 Fine\r\n\r\n".to_vec());
    assert_eq!(n, buf.len());
}

#[test]
fn request_with_supplied_verdicts() {
    let mut req = Request::get().v1_1().path("p").query("a").query("b");
    let mut buf = Vec::new();
    assert_eq!(
        req.write_checked(&mut buf, true, &[true, false]),
        Err(RequestWriteError::InvalidQuery)
    );
    assert_eq!(buf, b"GET p?a".to_vec());

    let mut req = Request::get().v1_1().path("p");
    let mut buf = Vec::new();
    assert_eq!(req.write_checked(&mut buf, false, &[]), Err(RequestWriteError::InvalidPath));
    assert!(buf.is_empty());
    assert_eq!(req.write_checked(&mut buf, true, &[]), Ok(18));
}

#[test]
fn status_code_range() {
    assert!(StatusCode::from_u16(99).is_none());
    assert!(StatusCode::from_u16(1000).is_none());
    assert_eq!(StatusCode::from_u16(100).unwrap().as_u16(), 100);
    assert_eq!(StatusCode::from_u16(999).unwrap().as_u16(), 999);
}

#[test]
fn response_round_trip_keeps_header_order() {
    let mut res = Response::new(status(503))
        .v1_1()
        .header("Retry-After", b"120")
        .header("X-A", b"1")
        .header("X-A", b"2");
    let mut buf = Vec::new();
    let n = res.write_to(&mut buf).unwrap();
    assert_eq!(n, buf.len());

    let mut headers = [httparse::EMPTY_HEADER; 16];
    let mut pres = httparse::Response::new(&mut headers);
    assert!(pres.parse(&buf).unwrap().is_complete());
    assert_eq!(pres.code, Some(503));
    assert_eq!(pres.reason, Some("Service Unavailable"));
    let got: Vec<(&str, &[u8])> = pres.headers.iter().map(|h| (h.name, h.value)).collect();
    assert_eq!(got, vec![("Retry-After", &b"120"[..]), ("X-A", &b"1"[..]), ("X-A", &b"2"[..])]);
}
