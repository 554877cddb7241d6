use dual_responder::policy::Method;
use dual_responder::request_line::is_headers_end;
use dual_responder::request_line::parse_request_line;
use dual_responder::request_line::to_request;

#[test]
fn plain_get_parses() {
    let rl = parse_request_line("GET / HTTP/1.1").unwrap();
    assert_eq!(rl.method, "GET");
    assert_eq!(rl.path, "/");
}

#[test]
fn other_method_and_path_parse() {
    let rl = parse_request_line("POST /submit HTTP/1.0").unwrap();
    assert_eq!(rl.method, "POST");
    assert_eq!(rl.path, "/submit");
}

#[test]
fn trailing_carriage_return_stays_in_remainder() {
    let rl = parse_request_line("GET /missing HTTP/1.1\r").unwrap();
    assert_eq!(rl.method, "GET");
    assert_eq!(rl.path, "/missing");
}

#[test]
fn line_without_second_space_is_refused() {
    assert!(parse_request_line("GET /").is_none());
    assert!(parse_request_line("GET").is_none());
}

#[test]
fn empty_line_is_refused() {
    assert!(parse_request_line("").is_none());
}

#[test]
fn empty_method_is_refused() {
    assert!(parse_request_line(" / HTTP/1.1").is_none());
}

#[test]
fn empty_path_is_refused() {
    assert!(parse_request_line("GET  HTTP/1.1").is_none());
}

#[test]
fn parsed_line_becomes_request() {
    let rl = parse_request_line("GET / HTTP/1.1").unwrap();
    let req = to_request(rl);
    assert_eq!(req.method, Method::Get);
    assert_eq!(req.path, "/");

    let rl = parse_request_line("DELETE / HTTP/1.1").unwrap();
    let req = to_request(rl);
    assert_eq!(req.method, Method::Other);
}

#[test]
fn header_section_end_recognised() {
    assert!(is_headers_end(""));
    assert!(is_headers_end("\n"));
    assert!(is_headers_end("\r\n"));
    assert!(!is_headers_end("Host: localhost\r\n"));
    assert!(!is_headers_end(" "));
}
