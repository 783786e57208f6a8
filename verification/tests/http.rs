use kiosk_desktop::error::ErrorKind;
use kiosk_desktop::http::{
    find_header_end, header_ci, parse_head, Headers, HttpReader, HttpRequest, ReadStep,
};
use kiosk_desktop::reply::{cors_headers, write_json_response, write_response, Reply};

fn read(chunks: &[&[u8]]) -> ReadStep {
    let mut reader = HttpReader::new();
    for chunk in chunks {
        match reader.feed(chunk) {
            ReadStep::NeedMore => {}
            step => return step,
        }
    }
    ReadStep::NeedMore
}

fn done(chunks: &[&[u8]]) -> HttpRequest {
    match read(chunks) {
        ReadStep::Done(request) => request,
        _ => panic!("not done"),
    }
}

fn failed(chunks: &[&[u8]]) -> (ErrorKind, String) {
    match read(chunks) {
        ReadStep::Failed(e) => (e.kind, e.message),
        _ => panic!("not failed"),
    }
}

const PRINT: &[u8] =
    b"POST /print HTTP/1.1\r\nHost: x\r\nContent-Length: 3\r\nX-Printer-Cups-Name: Till_1\r\n\r\nABC";

#[test]
fn the_end_of_the_headers_is_found() {
    assert_eq!(find_header_end(b""), None);
    assert_eq!(find_header_end(b"a\r\n\r\nb"), Some(1));
    assert_eq!(find_header_end(b"a\n\nb"), Some(1));
    assert_eq!(find_header_end(b"\n\na\r\n\r\nb"), Some(3));
    assert_eq!(find_header_end(b"a\r\n\n"), Some(2));
    assert_eq!(find_header_end(b"a\r\n"), None);
}

#[test]
fn a_request_is_read() {
    let request = done(&[PRINT]);
    assert_eq!(request.method, "POST");
    assert_eq!(request.path, "/print");
    assert_eq!(request.body, b"ABC");
    assert_eq!(header_ci(&request.headers, "x-printer-cups-name"), Some("Till_1".to_string()));
    assert_eq!(header_ci(&request.headers, "host"), Some("x".to_string()));
    assert_eq!(header_ci(&request.headers, "Host"), None);
}

#[test]
fn chunks_do_not_matter() {
    for cut in 1..PRINT.len() {
        let request = done(&[&PRINT[..cut], &PRINT[cut..]]);
        assert_eq!(request.body, b"ABC");
        assert_eq!(request.path, "/print");
    }
    let single: Vec<&[u8]> = PRINT.chunks(1).collect();
    assert_eq!(done(&single).body, b"ABC");
}

#[test]
fn what_comes_after_the_body_is_not_read() {
    let mut bytes = PRINT.to_vec();
    bytes.extend_from_slice(b"more");
    assert_eq!(done(&[&bytes]).body, b"ABC");
}

#[test]
fn lines_may_end_with_a_line_feed_alone() {
    let request = done(&[b"POST /print HTTP/1.1\nContent-Length: 2\n\nhi"]);
    assert_eq!(request.body, b"hi");
}

#[test]
fn a_body_that_is_not_announced_is_empty() {
    assert_eq!(done(&[b"GET /health HTTP/1.1\r\n\r\nxyz"]).body, b"");
    assert_eq!(done(&[b"GET / HTTP/1.1\r\nContent-Length: many\r\n\r\nxyz"]).body, b"");
    assert_eq!(done(&[b"GET / HTTP/1.1\r\nContent-Length: -1\r\n\r\nxyz"]).body, b"");
}

#[test]
fn the_last_field_of_a_name_counts() {
    let request =
        done(&[b"POST / HTTP/1.1\r\nContent-Length: 1\r\ncontent-LENGTH :  2 \r\nA\r\n\r\nxyz"]);
    assert_eq!(request.body, b"xy");
    assert_eq!(header_ci(&request.headers, "content-length"), Some("2".to_string()));
    assert_eq!(header_ci(&request.headers, "a"), None);
}

#[test]
fn bytes_that_are_no_text_do_not_stop_a_request() {
    let request = done(&[b"GET /\xff HTTP/1.1\r\nA: \xc3\xa4\r\n\r\n"]);
    assert_eq!(request.path, "/\u{fffd}");
    assert_eq!(header_ci(&request.headers, "a"), Some("ä".to_string()));
}

#[test]
fn a_request_line_needs_two_words() {
    assert_eq!(
        failed(&[b"GET\r\n\r\n"]),
        (ErrorKind::InvalidData, "bad request line".to_string())
    );
    assert_eq!(
        failed(&[b"\r\n\r\n"]),
        (ErrorKind::InvalidData, "bad request line".to_string())
    );
}

#[test]
fn headers_may_not_grow_without_end() {
    let long = vec![b'a'; 65536];
    assert!(matches!(read(&[&long]), ReadStep::NeedMore));
    assert_eq!(
        failed(&[&long, b"a"]),
        (ErrorKind::InvalidData, "HTTP headers too large".to_string())
    );
}

#[test]
fn a_connection_that_closes_early_is_an_error() {
    assert_eq!(
        failed(&[b"GET / HT", b""]),
        (
            ErrorKind::UnexpectedEof,
            "connection closed before HTTP headers completed".to_string()
        )
    );
    assert_eq!(
        failed(&[b"POST / HTTP/1.1\r\nContent-Length: 10\r\n\r\nabc", b""]),
        (ErrorKind::UnexpectedEof, "connection closed with 3/10 body bytes".to_string())
    );
}

#[test]
fn a_body_beyond_memory_is_told() {
    let head = format!("POST / HTTP/1.1\r\nContent-Length: {}\r\n\r\n", usize::MAX);
    assert!(matches!(read(&[head.as_bytes()]), ReadStep::BeyondMemory));
}

#[test]
fn what_a_client_writes_is_what_is_read() {
    let head = match parse_head("POST /print HTTP/1.1\r\nX-A: 1\r\nX-a: 2 3\r\nContent-Length: 12", 70) {
        Some(head) => head,
        None => panic!("no head"),
    };
    assert_eq!(head.method, "POST");
    assert_eq!(head.path, "/print");
    assert_eq!(head.headers.get("x-a"), Some("2 3".to_string()));
    assert_eq!(head.body_start, 70);
    assert_eq!(head.content_length, 12);
    assert!(parse_head("", 0).is_none());
}

#[test]
fn header_fields_keep_the_last_value() {
    let mut headers = Headers::new();
    assert_eq!(headers.get("a"), None);
    headers.insert("a".to_string(), "1".to_string());
    headers.insert("b".to_string(), "2".to_string());
    headers.insert("a".to_string(), "3".to_string());
    assert_eq!(headers.get("a"), Some("3".to_string()));
    assert_eq!(headers.get("b"), Some("2".to_string()));
}

#[test]
fn replies_say_how_long_they_are() {
    let text = write_response(404, "not found");
    assert_eq!(
        text,
        format!(
            "HTTP/1.1 404 Not Found\r\n{}Content-Length: 9\r\nConnection: close\r\nContent-Type: text/plain\r\n\r\nnot found",
            cors_headers()
        )
    );
    assert!(write_response(500, "ä").contains("HTTP/1.1 500 Error\r\n"));
    assert!(write_response(500, "ä").contains("Content-Length: 2\r\n"));
    assert!(write_response(204, "").starts_with("HTTP/1.1 204 No Content\r\n"));
    assert!(write_response(400, "").starts_with("HTTP/1.1 400 Bad Request\r\n"));
    assert!(write_response(200, "").starts_with("HTTP/1.1 200 OK\r\n"));
}

#[test]
fn replies_let_every_origin_in() {
    assert_eq!(
        cors_headers(),
        "Access-Control-Allow-Origin: *\r\n\
         Access-Control-Allow-Methods: GET, POST, OPTIONS\r\n\
         Access-Control-Allow-Headers: Content-Type, X-Printer-Cups-Name, X-Printer-Host, X-Printer-Port\r\n"
    );
}

#[test]
fn json_replies_are_marked() {
    assert_eq!(
        write_json_response(200, "{}"),
        format!(
            "HTTP/1.1 200 OK\r\n{}Content-Length: 2\r\nConnection: close\r\nContent-Type: application/json\r\n\r\n{{}}",
            cors_headers()
        )
    );
    assert!(write_json_response(404, "{}").starts_with("HTTP/1.1 404 Error\r\n"));
    let reply = Reply { status: 200, json: true, body: "{}".to_string() };
    assert_eq!(reply.text(), write_json_response(200, "{}"));
    assert_eq!(Reply::plain(200, "x").text(), write_response(200, "x"));
}
