use ionpak::http::{write_reply_header, Request};

#[test]
fn parses_a_full_get_request() {
    let mut r = Request::new();
    let outcome = r.input(b"GET /foo?a=1&b=2 HTTP/1.1\r\nHost: x\r\n\r\n");
    assert_eq!(outcome, Ok(true));
    assert_eq!(r.get_query(), Ok(&b"/foo?a=1&b=2"[..]));
    assert_eq!(r.get_path().unwrap().as_slice(), b"/foo");
    assert_eq!(r.get_arg(b"a").unwrap().as_slice(), b"1");
    assert_eq!(r.get_arg(b"b").unwrap().as_slice(), b"2");
    assert_eq!(r.get_arg(b"c"), Err("argument not found"));
}

#[test]
fn request_without_arguments() {
    let mut r = Request::new();
    assert_eq!(r.input(b"GET / HTTP/1.1\r\n\r\n"), Ok(true));
    assert_eq!(r.get_path().unwrap().as_slice(), b"/");
    let args = r.iter_args().unwrap();
    // no question mark: the argument list still holds one empty piece
    assert_eq!(args.len(), 1);
    assert_eq!(args[0].0.as_slice(), b"");
    assert_eq!(args[0].1.as_slice(), b"");
}

#[test]
fn argument_edge_cases() {
    let mut r = Request::new();
    assert_eq!(r.input(b"GET /x?a=b=c&=v&flag HTTP/1.1\r\n\r\n"), Ok(true));
    let args = r.iter_args().unwrap();
    assert_eq!(args.len(), 3);
    // a value keeps only the text between the first and second '='
    assert_eq!(args[0].0.as_slice(), b"a");
    assert_eq!(args[0].1.as_slice(), b"b");
    // an empty name is kept
    assert_eq!(args[1].0.as_slice(), b"");
    assert_eq!(args[1].1.as_slice(), b"v");
    // a piece without '=' has an empty value
    assert_eq!(args[2].0.as_slice(), b"flag");
    assert_eq!(args[2].1.as_slice(), b"");
    assert_eq!(r.get_arg(b"a").unwrap().as_slice(), b"b");
}

#[test]
fn results_before_finish_are_errors() {
    let mut r = Request::new();
    assert_eq!(r.input(b"GET /x HTTP/1.1\r\n"), Ok(false));
    assert_eq!(r.get_query(), Err("request is not finished"));
    assert_eq!(r.get_path(), Err("request is not finished"));
    assert_eq!(r.get_arg(b"a"), Err("request is not finished"));
}

#[test]
fn rejects_other_methods() {
    let mut r = Request::new();
    assert_eq!(r.input(b"PUT /x HTTP/1.1\r\n\r\n"), Err("invalid character in method"));
}

#[test]
fn rejects_empty_query() {
    let mut r = Request::new();
    assert_eq!(r.input(b"GET  HTTP/1.1\r\n\r\n"), Err("query is empty"));
}

#[test]
fn rejects_query_ending_in_line_break() {
    let mut r = Request::new();
    assert_eq!(r.input(b"GET /x\r\n"), Err("GET ended prematurely"));
}

#[test]
fn rejects_overlong_query() {
    let mut r = Request::new();
    let mut request: Vec<u8> = Vec::new();
    request.extend_from_slice(b"GET /");
    request.resize(request.len() + 130, b'a');
    request.extend_from_slice(b" HTTP/1.1\r\n\r\n");
    assert_eq!(r.input(&request), Err("query is too long"));
}

#[test]
fn rejects_trailing_characters() {
    let mut r = Request::new();
    assert_eq!(r.input(b"GET /x HTTP/1.1\r\n\r\n"), Ok(true));
    assert_eq!(r.input_char(b'x'), Err("trailing characters"));
}

#[test]
fn reset_allows_a_fresh_request() {
    let mut r = Request::new();
    assert_eq!(r.input(b"PUT"), Err("invalid character in method"));
    r.reset();
    assert_eq!(r.input(b"GET /y HTTP/1.1\r\n\r\n"), Ok(true));
    assert_eq!(r.get_path().unwrap().as_slice(), b"/y");
}

#[test]
fn reply_header_for_plain_page() {
    let header = write_reply_header(200, "text/html; charset=utf-8", false).unwrap();
    assert_eq!(
        header,
        "HTTP/1.1 200 OK\r\nContent-Type: text/html; charset=utf-8\r\n\r\n"
    );
}

#[test]
fn reply_header_with_gzip_lines() {
    let header = write_reply_header(200, "text/css", true).unwrap();
    assert_eq!(
        header,
        "HTTP/1.1 200 OK\r\nContent-Type: text/css\r\nContent-Encoding: gzip\r\nCache-Control: public, max-age=600\r\n\r\n"
    );
}

#[test]
fn reply_header_error_statuses() {
    assert_eq!(
        write_reply_header(404, "text/plain", false).unwrap(),
        "HTTP/1.1 404 Not Found\r\nContent-Type: text/plain\r\n\r\n"
    );
    assert_eq!(
        write_reply_header(500, "text/plain", false).unwrap(),
        "HTTP/1.1 500 Internal Server Error\r\nContent-Type: text/plain\r\n\r\n"
    );
    assert_eq!(write_reply_header(302, "text/plain", false), Err(()));
}
