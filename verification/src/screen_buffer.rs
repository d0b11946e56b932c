//! Working with console screen buffers: creating one, making one the active
//! buffer, resizing it, and reading its metadata.

use vstd::prelude::*;

use crate::error::{OsError, ERROR_INVALID_PARAMETER};
use crate::handle::{
    Handle, RawHandle, FILE_SHARE_READ, FILE_SHARE_WRITE, GENERIC_READ, GENERIC_WRITE,
};
use crate::structs::size::Size;

verus! {

/// The flag selecting a text-mode buffer when creating a screen buffer, the
/// only kind the console supports.
pub const CONSOLE_TEXTMODE_BUFFER: u32 = 1;

/// The outcome of an acceptance, seen at the handle: the wrapper's handle on
/// success, the same error on failure.
pub open spec fn handle_result_of(r: Result<ScreenBuffer, OsError>) -> Result<Handle, OsError> {
    match r {
        Ok(sb) => Ok(sb.handle_spec()),
        Err(e) => Err(e),
    }
}

/// The parameters a screen-buffer creation call takes.
#[derive(Copy, Clone, Debug, PartialEq, Eq, Structural)]
pub struct BufferCreation {
    /// The access mask to ask for.
    pub desired_access: u32,
    /// The sharing to allow other opens of the buffer.
    pub share_mode: u32,
    /// Whether child processes inherit the new handle.
    pub inherit_handle: bool,
    /// The kind of buffer to create.
    pub flags: u32,
}

/// A wrapper around a screen buffer.
#[derive(Copy, Clone, Debug)]
pub struct ScreenBuffer {
    /// The handle used for the native calls of this wrapper.
    pub handle: Handle,
}

impl ScreenBuffer {
    /// The handle this wrapper drives.
    pub open spec fn handle_spec(self) -> Handle {
        self.handle
    }

    /// Create a wrapper around a screen buffer from its handle.
    pub fn new(handle: Handle) -> (sb: ScreenBuffer)
        ensures
            sb.handle_spec() == handle,
    {
        Self { handle }
    }

    /// Accept the outcome of opening `CONOUT$`: a wrapper around the
    /// currently active screen buffer, with an exclusively owned handle.
    pub fn current(acquired: Result<RawHandle, OsError>) -> (r: Result<ScreenBuffer, OsError>)
        ensures
            Handle::accepted_spec(acquired, true, handle_result_of(r)),
    {
        match Handle::current_out_handle(acquired) {
            Ok(handle) => Ok(ScreenBuffer { handle }),
            Err(e) => Err(e),
        }
    }

    /// The parameters a new screen buffer is created with: read and write
    /// access, shared for reading and writing, an inheritable handle, and
    /// text mode.
    pub fn creation() -> (c: BufferCreation)
        ensures
            c == (BufferCreation {
                desired_access: GENERIC_READ | GENERIC_WRITE,
                share_mode: FILE_SHARE_READ | FILE_SHARE_WRITE,
                inherit_handle: true,
                flags: CONSOLE_TEXTMODE_BUFFER,
            }),
    {
        BufferCreation {
            desired_access: GENERIC_READ | GENERIC_WRITE,
            share_mode: FILE_SHARE_READ | FILE_SHARE_WRITE,
            inherit_handle: true,
            flags: CONSOLE_TEXTMODE_BUFFER,
        }
    }

    /// Accept the outcome of creating a new screen buffer (see
    /// [`ScreenBuffer::creation`] for the parameters such a creation takes).
    /// The new buffer's handle is owned exclusively; the buffer exists but
    /// is not yet visible.
    pub fn create(created: Result<RawHandle, OsError>) -> (r: Result<ScreenBuffer, OsError>)
        ensures
            Handle::accepted_spec(created, true, handle_result_of(r)),
    {
        match Handle::from_created(created) {
            Ok(handle) => Ok(ScreenBuffer { handle }),
            Err(e) => Err(e),
        }
    }

    /// Get the underlying handle used by this wrapper to execute with.
    pub fn handle(&self) -> (h: &Handle)
        ensures
            h == self.handle_spec(),
    {
        &self.handle
    }
}

impl From<Handle> for ScreenBuffer {
    /// Wrap an already-acquired handle.
    fn from(handle: Handle) -> (sb: ScreenBuffer)
        ensures
            sb.handle_spec() == handle,
    {
        ScreenBuffer { handle }
    }
}

impl vstd::std_specs::convert::FromSpecImpl<Handle> for ScreenBuffer {
    open spec fn obeys_from_spec() -> bool {
        true
    }

    open spec fn from_spec(handle: Handle) -> ScreenBuffer {
        ScreenBuffer { handle }
    }
}

/// One screen buffer's display state, as the platform documents it: the size
/// of its character grid, and the extent of the window that shows it.
#[derive(Copy, Clone, Debug, PartialEq, Eq, Structural)]
pub struct ScreenBufferState {
    /// The size of the buffer's character grid.
    pub size: Size,
    /// The extent of the window showing the buffer.
    pub window: Size,
}

impl ScreenBufferState {
    /// A buffer's grid is at least one cell each way and no smaller than the
    /// window showing it.
    pub open spec fn wf(self) -> bool {
        &&& 1 <= self.window.width
        &&& 1 <= self.window.height
        &&& self.window.width <= self.size.width
        &&& self.window.height <= self.size.height
    }

    /// Whether the buffer may be resized to the given size: the platform
    /// refuses a grid smaller than the window showing the buffer. The
    /// window's own minimum is the platform's to pick, so a resize close to
    /// the window's extent is a boundary the caller must expect to fail.
    pub open spec fn can_resize_spec(self, width: i16, height: i16) -> bool {
        self.window.width <= width && self.window.height <= height
    }

    /// The buffer after a resize of its grid.
    pub open spec fn resized_spec(self, width: i16, height: i16) -> ScreenBufferState {
        ScreenBufferState { size: Size { width, height }, ..self }
    }

    /// Set the buffer's grid to the given size, as the platform documents
    /// the resize call: it succeeds exactly when neither extent falls under
    /// the window's, and leaves the buffer as it was otherwise.
    pub fn set_size(&mut self, x: i16, y: i16) -> (r: Result<(), OsError>)
        ensures
            r is Ok <==> old(self).can_resize_spec(x, y),
            r is Ok ==> *final(self) == old(self).resized_spec(x, y),
            r is Err ==> *final(self) == *old(self),
            r matches Err(e) ==> e == (OsError { code: ERROR_INVALID_PARAMETER }),
            old(self).wf() ==> final(self).wf(),
    {
        if self.window.width <= x && self.window.height <= y {
            self.size = Size::new(x, y);
            Ok(())
        } else {
            Err(OsError::new(ERROR_INVALID_PARAMETER))
        }
    }
}

/// The process-wide display state: which screen buffer's contents the
/// console shows. Exactly one buffer is active at a time; making another
/// buffer active does not destroy the one that was active before.
#[derive(Copy, Clone, Debug, PartialEq, Eq, Structural)]
pub struct ConsoleDisplay {
    /// The display state of the active buffer.
    pub active: ScreenBufferState,
}

impl ConsoleDisplay {
    /// The display after a buffer is made the active one.
    pub open spec fn shown_spec(self, buffer: ScreenBufferState) -> ConsoleDisplay {
        ConsoleDisplay { active: buffer }
    }

    /// What a query of the active buffer reports.
    pub open spec fn current_spec(self) -> ScreenBufferState {
        self.active
    }

    /// Make a buffer the process's active screen buffer.
    pub fn show(&mut self, buffer: ScreenBufferState)
        ensures
            *final(self) == old(self).shown_spec(buffer),
    {
        self.active = buffer;
    }

    /// The display state of the active buffer, as a query reports it.
    pub fn current(&self) -> (b: ScreenBufferState)
        ensures
            b == self.current_spec(),
    {
        self.active
    }
}

/// Making a buffer active puts exactly that buffer behind every following
/// query of the active buffer: after a buffer is shown, the current buffer's
/// display state is the shown buffer's.
pub proof fn lemma_show_then_current(d: ConsoleDisplay, buffer: ScreenBufferState)
    ensures
        d.shown_spec(buffer).current_spec() == buffer,
{
}

/// A resize accepted before a buffer is shown is what queries of the active
/// buffer observe afterwards: resizing a buffer and then showing it leaves
/// the current buffer's grid at exactly the requested size.
pub proof fn lemma_resize_show_current(
    d: ConsoleDisplay,
    buffer: ScreenBufferState,
    width: i16,
    height: i16,
)
    requires
        buffer.can_resize_spec(width, height),
    ensures
        d.shown_spec(buffer.resized_spec(width, height)).current_spec().size == (Size {
            width,
            height,
        }),
{
}

} // verus!
