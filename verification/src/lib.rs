//! Safe, verified bookkeeping for Windows console resources.
//!
//! The crate models the values that flow through the Windows Console API:
//! raw handle bits, ownership of those handles (shared standard handles
//! versus exclusively owned ones that must be closed exactly once), console
//! mode bitmasks, screen-buffer metadata, and a binary semaphore. Every
//! decision the wrapper makes — which acquisition strategy serves a handle
//! type, when an acquired value is accepted, when a handle must be closed,
//! how queries report stored state — is an ordinary function here with a
//! proved contract. The native calls themselves live outside this library,
//! in a thin shell that feeds their plain results back in.

use vstd::prelude::*;

pub use cfi::FontInfo;
pub use console_mode::{lemma_set_then_mode_covers, ConsoleMode, ModeRegister};
pub use csbi::ScreenBufferInfo;
pub use error::{OsError, ERROR_INVALID_HANDLE, ERROR_INVALID_PARAMETER, ERROR_TOO_MANY_POSTS};
pub use handle::{
    acquisition_spec, Acquisition, ConsoleFile, Handle, HandleType, RawHandle, FILE_SHARE_READ,
    FILE_SHARE_WRITE, GENERIC_READ, GENERIC_WRITE, INVALID_HANDLE_BITS, OPEN_EXISTING,
    STD_INPUT_DEVICE, STD_OUTPUT_DEVICE,
};
pub use ownership::{
    clones_in, closes_in, drops_in, lemma_close_count, lemma_exclusive_closes_once,
    lemma_shared_never_closes, trace_ok, OwnerEvent, OwnershipState,
};
pub use screen_buffer::{
    lemma_resize_show_current, lemma_show_then_current, BufferCreation, ConsoleDisplay,
    ScreenBuffer, ScreenBufferState, CONSOLE_TEXTMODE_BUFFER,
};
pub use semaphore::{
    lemma_release_exactly_once, Semaphore, SemaphoreCount, SEMAPHORE_INITIAL_COUNT,
    SEMAPHORE_MAXIMUM_COUNT,
};
pub use structs::coord::Coord;
pub use structs::size::Size;
pub use structs::window_positions::WindowPositions;

pub mod cfi;
pub mod console_mode;
pub mod csbi;
pub mod error;
pub mod handle;
pub mod ownership;
pub mod screen_buffer;
pub mod semaphore;
pub mod structs;

verus! {

/// Interpret a native call that reports a coordinate pair: a pair with both
/// coordinates nonzero is success, and anything else is the failure the
/// platform recorded as its last error, which the caller passes in.
pub fn coord_result(return_value: Coord, last_error: OsError) -> (r: Result<Coord, OsError>)
    ensures
        r is Ok <==> (return_value.x != 0 && return_value.y != 0),
        r matches Ok(c) ==> c == return_value,
        r matches Err(e) ==> e == last_error,
{
    if return_value.x != 0 && return_value.y != 0 {
        Ok(return_value)
    } else {
        Err(last_error)
    }
}

} // verus!
