//! The frame source: queries the available displays and produces a raw
//! pixel buffer for a chosen display index. The display list is queried
//! anew for every frame — the list can change between frames, and a display
//! index beyond the current list is a per-connection failure, never a
//! session-level one.
use vstd::prelude::*;

use crate::errors::ConnectionError;
use crate::frame::EncodedFrame;
use crate::frame::JPEG_MAX_DIMENSION;
use crate::frame::encode_frame;
use crate::frame::jpeg_encoding;
use crate::frame::rgb_of;
use crate::frame::validate_capture;

verus! {

#[verifier::external_type_specification]
#[verifier::external_body]
pub struct ExScreen(screenshots::Screen);

/// Relies on screenshots' `Screen::all`: the current ordered list of
/// displays. What it returns depends on the machine's state, so nothing is
/// promised of the list itself.
#[verifier::external_body]
fn screens_all() -> (r: Result<Vec<screenshots::Screen>, ConnectionError>)
    ensures
        r matches Err(e) ==> e == ConnectionError::DisplayListFailed,
{
    match screenshots::Screen::all() {
        Ok(v) => Ok(v),
        Err(_) => Err(ConnectionError::DisplayListFailed),
    }
}

/// Relies on screenshots' `Screen::capture`: a capture of the display's
/// current pixels as width, height, and a packed RGBA buffer. The pixels
/// depend on what is on the screen, so nothing is promised of the buffer;
/// callers check its shape themselves.
#[verifier::external_body]
fn capture_screen(screen: &screenshots::Screen) -> (r: Result<(u32, u32, Vec<u8>), ConnectionError>)
    ensures
        r matches Err(e) ==> e == ConnectionError::CaptureFailed,
{
    match screen.capture() {
        Ok(img) => {
            let w = img.width();
            let h = img.height();
            Ok((w, h, img.into_raw()))
        },
        Err(_) => Err(ConnectionError::CaptureFailed),
    }
}

/// Select the display to capture from the current list: the choice
/// succeeds exactly when the index is within the list, and an index beyond
/// it fails with the screen-not-found error — a per-connection failure,
/// revalidated against the live list at every frame.
pub fn select_screen(screens: &Vec<screenshots::Screen>, display_index: usize) -> (r: Result<
    &screenshots::Screen,
    ConnectionError,
>)
    ensures
        r is Ok <==> display_index < screens@.len(),
        r matches Err(e) ==> e == ConnectionError::DisplayNotFound,
{
    if display_index < screens.len() {
        Ok(&screens[display_index])
    } else {
        Err(ConnectionError::DisplayNotFound)
    }
}

/// Produce one encoded frame of the chosen display: query the current
/// display list, select the display by index, capture its pixels, check
/// the capture's shape, drop the alpha channel and encode as JPEG at the
/// given quality.
///
/// The display list and the pixels are machine state, so which branch is
/// taken cannot be promised here; each decision is fixed one call down, by
/// `select_screen` (index in list, else screen not found),
/// `validate_capture` (buffer shape and JPEG dimension range, fixing which
/// error comes otherwise) and `encode_frame` (success exactly for in-range
/// dimensions, bytes fixed by the named encoding). Whatever the machine
/// returned, a produced frame is a JPEG image of some captured RGBA buffer
/// matching the frame's own dimensions, and it starts with the JPEG
/// start-of-image marker. Every failure is one of the connection-fatal
/// errors of the frame path.
pub fn produce_frame(display_index: usize, quality: u8) -> (r: Result<
    EncodedFrame,
    ConnectionError,
>)
    ensures
        r matches Ok(e) ==> {
            &&& 1 <= e.width <= JPEG_MAX_DIMENSION
            &&& 1 <= e.height <= JPEG_MAX_DIMENSION
            &&& exists|rgba: Seq<u8>|
                rgba.len() == 4 * ((e.width as int) * (e.height as int)) && e.data@
                    == jpeg_encoding(rgb_of(rgba), e.width, e.height, quality)
            &&& e.data@.len() >= 2
            &&& e.data@[0] == 0xff
            &&& e.data@[1] == 0xd8
        },
        r matches Err(e) ==> e == ConnectionError::DisplayListFailed || e
            == ConnectionError::DisplayNotFound || e == ConnectionError::CaptureFailed || e
            == ConnectionError::EncodeFailed,
{
    let screens = match screens_all() {
        Ok(v) => v,
        Err(e) => {
            return Err(e);
        },
    };
    let screen = match select_screen(&screens, display_index) {
        Ok(s) => s,
        Err(e) => {
            return Err(e);
        },
    };
    let (width, height, rgba) = match capture_screen(screen) {
        Ok(t) => t,
        Err(e) => {
            return Err(e);
        },
    };
    let raw = match validate_capture(width, height, rgba) {
        Ok(f) => f,
        Err(e) => {
            return Err(e);
        },
    };
    match encode_frame(&raw, quality) {
        Ok(e) => {
            proof {
                let ghost witness = raw.rgba@;
                assert(witness.len() == 4 * ((e.width as int) * (e.height as int)) && e.data@
                    == jpeg_encoding(rgb_of(witness), e.width, e.height, quality));
            }
            Ok(e)
        },
        Err(e) => Err(e),
    }
}

} // verus!
