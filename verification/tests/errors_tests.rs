use screen_stream::capture::{produce_frame, select_screen};
use screen_stream::errors::{ConnectionError, StartError};
use screen_stream::frame::JPEG_QUALITY;

#[test]
fn connection_error_messages() {
    assert_eq!(ConnectionError::EmptyRequest.message(), "empty request");
    assert_eq!(ConnectionError::PeekFailed.message(), "failed to peek stream");
    assert_eq!(
        ConnectionError::HandshakeFailed.message(),
        "websocket handshake failed"
    );
    assert_eq!(
        ConnectionError::DisplayListFailed.message(),
        "failed to get screens"
    );
    assert_eq!(ConnectionError::DisplayNotFound.message(), "screen not found");
    assert_eq!(ConnectionError::CaptureFailed.message(), "failed to capture");
    assert_eq!(ConnectionError::EncodeFailed.message(), "failed to encode jpeg");
    assert_eq!(ConnectionError::SendFailed.message(), "failed to send frame");
}

#[test]
fn start_error_messages() {
    assert_eq!(StartError::BindFailed.message(), "failed to bind server port");
    assert_eq!(
        StartError::NonBlockingFailed.message(),
        "failed to set non-blocking accept"
    );
    assert_eq!(
        StartError::NoLocalAddress.message(),
        "no usable local network address"
    );
}

#[test]
fn index_beyond_display_list_is_screen_not_found() {
    let screens: Vec<screenshots::Screen> = Vec::new();
    let r = select_screen(&screens, 0);
    assert!(matches!(r, Err(ConnectionError::DisplayNotFound)));
    let r = select_screen(&screens, usize::MAX);
    assert!(matches!(r, Err(ConnectionError::DisplayNotFound)));
}

#[test]
fn out_of_range_display_is_a_connection_error() {
    // The display list is whatever this machine has; an index beyond any
    // real list fails with a per-connection error, never a panic.
    let r = produce_frame(usize::MAX, JPEG_QUALITY);
    assert!(matches!(
        r,
        Err(ConnectionError::DisplayNotFound) | Err(ConnectionError::DisplayListFailed)
    ));
}
