use screen_stream::http::{build_http_response, dec_string, viewer_page, viewer_response};

#[test]
fn dec_string_exact_values() {
    assert_eq!(dec_string(0), "0");
    assert_eq!(dec_string(7), "7");
    assert_eq!(dec_string(10), "10");
    assert_eq!(dec_string(8192), "8192");
    assert_eq!(dec_string(u64::MAX), "18446744073709551615");
}

#[test]
fn response_for_small_body_is_exact() {
    let r = build_http_response("hello");
    assert_eq!(
        r,
        "HTTP/1.1 200 OK\r\nContent-Type: text/html; charset=utf-8\r\nContent-Length: 5\r\nConnection: close\r\n\r\nhello"
    );
}

#[test]
fn response_for_empty_body_is_exact() {
    let r = build_http_response("");
    assert_eq!(
        r,
        "HTTP/1.1 200 OK\r\nContent-Type: text/html; charset=utf-8\r\nContent-Length: 0\r\nConnection: close\r\n\r\n"
    );
}

#[test]
fn viewer_response_status_and_headers() {
    let r = viewer_response();
    assert!(r.starts_with("HTTP/1.1 200 OK\r\n"));
    assert!(r.contains("Content-Type: text/html; charset=utf-8"));
    assert!(r.contains("Connection: close\r\n"));
}

#[test]
fn viewer_response_contains_title() {
    let r = viewer_response();
    assert!(r.contains("WebSocket Screen Stream"));
}

#[test]
fn viewer_response_content_length_counts_body_bytes() {
    let r = viewer_response();
    let header_end = r.find("\r\n\r\n").expect("header terminator") + 4;
    let body = &r[header_end..];
    let declared = r
        .lines()
        .find(|l| l.starts_with("Content-Length: "))
        .and_then(|l| l["Content-Length: ".len()..].parse::<usize>().ok())
        .expect("content length header");
    assert_eq!(declared, body.as_bytes().len());
    assert_eq!(body, viewer_page());
}

#[test]
fn viewer_page_opens_websocket_back_to_host() {
    let page = viewer_page();
    assert!(page.contains("new WebSocket('ws://' + window.location.host)"));
    assert!(page.contains("<canvas"));
    assert!(page.contains("FPS"));
}
