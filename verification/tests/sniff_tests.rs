use screen_stream::errors::ConnectionError;
use screen_stream::sniff::{classify, route_connection, Classification};

#[test]
fn classify_plain_http_get() {
    let req = b"GET / HTTP/1.1\r\nHost: 127.0.0.1:9191\r\nAccept: text/html\r\n\r\n";
    assert_eq!(classify(req), Classification::Http);
}

#[test]
fn classify_upgrade_header_lowercase() {
    let req = b"GET / HTTP/1.1\r\nhost: x\r\nupgrade: websocket\r\n\r\n";
    assert_eq!(classify(req), Classification::WebSocket);
}

#[test]
fn classify_upgrade_header_standard_case() {
    let req = b"GET / HTTP/1.1\r\nHost: x\r\nConnection: Upgrade\r\nUpgrade: WebSocket\r\nSec-WebSocket-Key: dGhlIHNhbXBsZSBub25jZQ==\r\n\r\n";
    assert_eq!(classify(req), Classification::WebSocket);
}

#[test]
fn classify_upgrade_header_no_space() {
    let req = b"GET / HTTP/1.1\r\nUpgrade:websocket\r\n\r\n";
    assert_eq!(classify(req), Classification::WebSocket);
}

#[test]
fn classify_upgrade_header_shouting() {
    let req = b"GET / HTTP/1.1\r\nUPGRADE: WEBSOCKET\r\n\r\n";
    assert_eq!(classify(req), Classification::WebSocket);
}

#[test]
fn classify_mentions_without_header_stay_http() {
    // `upgrade` and `websocket` apart do not make an upgrade header.
    let req = b"GET /websocket HTTP/1.1\r\nX-Note: please upgrade me\r\n\r\n";
    assert_eq!(classify(req), Classification::Http);
}

#[test]
fn classify_empty_request() {
    assert_eq!(classify(&[]), Classification::Unclassified);
}

#[test]
fn classification_is_case_insensitive() {
    let req = b"GET / HTTP/1.1\r\nUpGrAdE: wEbSoCkEt\r\n\r\n".to_vec();
    let lowered: Vec<u8> = req.iter().map(|b| b.to_ascii_lowercase()).collect();
    assert_eq!(classify(&req), classify(&lowered));
    assert_eq!(classify(&req), Classification::WebSocket);
}

#[test]
fn classification_is_deterministic() {
    let req = b"GET / HTTP/1.1\r\nUpgrade: websocket\r\n\r\n";
    let first = classify(req);
    for _ in 0..8 {
        assert_eq!(classify(req), first);
    }
}

#[test]
fn route_empty_request_is_rejected() {
    assert_eq!(route_connection(&[]), Err(ConnectionError::EmptyRequest));
}

#[test]
fn route_http_and_websocket() {
    assert_eq!(
        route_connection(b"GET / HTTP/1.1\r\n\r\n"),
        Ok(Classification::Http)
    );
    assert_eq!(
        route_connection(b"GET / HTTP/1.1\r\nUpgrade: websocket\r\n\r\n"),
        Ok(Classification::WebSocket)
    );
}
