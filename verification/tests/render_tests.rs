use dual_responder::policy::Method;
use dual_responder::policy::Request;
use dual_responder::policy::ResponsePolicy;
use dual_responder::render::decimal_string;
use dual_responder::render::render_head;

const FIRST: &str = "\u{1f980} Hello OpenShift! \u{1f980}\n";

#[test]
fn decimal_rendering_is_exact() {
    assert_eq!(decimal_string(0), "0");
    assert_eq!(decimal_string(7), "7");
    assert_eq!(decimal_string(10), "10");
    assert_eq!(decimal_string(8080), "8080");
    assert_eq!(decimal_string(65535), "65535");
    assert_eq!(decimal_string(u64::MAX), "18446744073709551615");
}

#[test]
fn served_head_is_exact() {
    let policy = ResponsePolicy::new(FIRST.to_string());
    let response = policy.respond(&Request { method: Method::Get, path: "/".to_string() });
    let expected = format!(
        "HTTP/1.1 200 OK\r\nContent-Length: {}\r\nContent-Type: text/plain\r\n\r\n",
        FIRST.len()
    );
    assert_eq!(render_head(&response), expected);
}

#[test]
fn not_found_head_is_exact() {
    let policy = ResponsePolicy::new(FIRST.to_string());
    let response = policy.respond(&Request { method: Method::Get, path: "/missing".to_string() });
    assert_eq!(render_head(&response), "HTTP/1.1 404 Not Found\r\nContent-Length: 0\r\n\r\n");
}
