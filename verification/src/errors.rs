//! Error taxonomy of the streaming server.
//!
//! Session-fatal errors abort a `start` attempt before any session is
//! recorded; connection-fatal errors end exactly one client connection and
//! never touch the dispatcher or other connections.
use vstd::prelude::*;

verus! {

/// A failure that aborts the whole `start` attempt. No session is recorded
/// when one of these is returned.
#[derive(Clone, Copy, Debug, PartialEq, Eq, Structural)]
pub enum StartError {
    /// The TCP listener could not be bound to the requested port.
    BindFailed,
    /// The listener could not be switched to non-blocking accept mode.
    NonBlockingFailed,
    /// No usable local network address could be resolved for the host.
    NoLocalAddress,
}

/// A failure that ends a single client connection. Other connections of the
/// same session, and the session itself, are unaffected.
#[derive(Clone, Copy, Debug, PartialEq, Eq, Structural)]
pub enum ConnectionError {
    /// The opening peek yielded zero bytes.
    EmptyRequest,
    /// The opening bytes could not be read from the socket.
    PeekFailed,
    /// The WebSocket handshake did not complete.
    HandshakeFailed,
    /// The display list could not be queried.
    DisplayListFailed,
    /// The chosen display index is beyond the current display list.
    DisplayNotFound,
    /// The display's pixels could not be captured, or the capture buffer
    /// did not have one RGBA quadruple per pixel.
    CaptureFailed,
    /// The captured frame could not be encoded as JPEG.
    EncodeFailed,
    /// The encoded frame could not be written to the client.
    SendFailed,
}

impl StartError {
    /// A fixed description of the error, for reporting at the call site.
    pub fn message(&self) -> (m: &'static str)
        ensures
            m@ == match *self {
                StartError::BindFailed => "failed to bind server port"@,
                StartError::NonBlockingFailed => "failed to set non-blocking accept"@,
                StartError::NoLocalAddress => "no usable local network address"@,
            },
    {
        match *self {
            StartError::BindFailed => "failed to bind server port",
            StartError::NonBlockingFailed => "failed to set non-blocking accept",
            StartError::NoLocalAddress => "no usable local network address",
        }
    }
}

impl ConnectionError {
    /// A fixed description of the error, for logging at the connection
    /// boundary.
    pub fn message(&self) -> (m: &'static str)
        ensures
            m@ == match *self {
                ConnectionError::EmptyRequest => "empty request"@,
                ConnectionError::PeekFailed => "failed to peek stream"@,
                ConnectionError::HandshakeFailed => "websocket handshake failed"@,
                ConnectionError::DisplayListFailed => "failed to get screens"@,
                ConnectionError::DisplayNotFound => "screen not found"@,
                ConnectionError::CaptureFailed => "failed to capture"@,
                ConnectionError::EncodeFailed => "failed to encode jpeg"@,
                ConnectionError::SendFailed => "failed to send frame"@,
            },
    {
        match *self {
            ConnectionError::EmptyRequest => "empty request",
            ConnectionError::PeekFailed => "failed to peek stream",
            ConnectionError::HandshakeFailed => "websocket handshake failed",
            ConnectionError::DisplayListFailed => "failed to get screens",
            ConnectionError::DisplayNotFound => "screen not found",
            ConnectionError::CaptureFailed => "failed to capture",
            ConnectionError::EncodeFailed => "failed to encode jpeg",
            ConnectionError::SendFailed => "failed to send frame",
        }
    }
}

} // verus!
