//! Verified core of a hybrid HTTP/WebSocket screen-streaming server.
//!
//! A single TCP port serves either a static HTML viewer page or a live
//! JPEG video feed of a chosen display, decided per connection by sniffing
//! the opening bytes of the request. This crate holds the protocol and
//! lifecycle logic: connection classification, the HTTP response for the
//! viewer page, frame conversion and encoding, the per-loop decisions of
//! the dispatcher and the frame pump, and the start/stop state machine.
//! The sockets and threads themselves live outside the library.
pub mod capture;
pub mod dispatch;
pub mod errors;
pub mod frame;
pub mod http;
pub mod lifecycle;
pub mod sniff;

