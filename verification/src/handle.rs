//! Working with console handles: which native call acquires each kind of
//! handle, which acquired values are accepted, and who owns the result.

use vstd::prelude::*;

use crate::error::{OsError, ERROR_INVALID_HANDLE};

verus! {

/// The bit pattern of the sentinel the platform uses for a failed handle
/// acquisition, a pointer-sized value with every bit set.
pub const INVALID_HANDLE_BITS: usize = usize::MAX;

/// The access-mask bit asking for read access when opening a file.
pub const GENERIC_READ: u32 = 0x8000_0000;

/// The access-mask bit asking for write access when opening a file.
pub const GENERIC_WRITE: u32 = 0x4000_0000;

/// The share-mode bit allowing other opens of the same file for reading.
pub const FILE_SHARE_READ: u32 = 0x1;

/// The share-mode bit allowing other opens of the same file for writing.
pub const FILE_SHARE_WRITE: u32 = 0x2;

/// The creation disposition asking that the file must already exist.
pub const OPEN_EXISTING: u32 = 3;

/// The device code naming the process's standard output for a standard
/// handle query: -11 in two's complement.
pub const STD_OUTPUT_DEVICE: u32 = 0xFFFF_FFF5;

/// The device code naming the process's standard input for a standard
/// handle query: -10 in two's complement.
pub const STD_INPUT_DEVICE: u32 = 0xFFFF_FFF6;

/// The numeric value of a native kernel handle, carried as its pointer-sized
/// bit pattern.
#[derive(Copy, Clone, Debug, PartialEq, Eq, Structural)]
pub struct RawHandle {
    /// The handle's bits, read as an unsigned pointer-sized integer.
    pub bits: usize,
}

impl RawHandle {
    /// Wrap a native handle value given as its bits.
    pub fn new(bits: usize) -> (r: RawHandle)
        ensures
            r.bits == bits,
    {
        RawHandle { bits }
    }

    /// Whether this value is the platform's invalid-handle sentinel.
    pub open spec fn is_sentinel_spec(self) -> bool {
        self.bits == INVALID_HANDLE_BITS
    }

    /// Whether this value is the null handle, which a standard handle query
    /// reports when the process has no standard device attached.
    pub open spec fn is_null_spec(self) -> bool {
        self.bits == 0
    }

    /// Whether this value can reference a live object: neither the
    /// invalid-handle sentinel nor null.
    pub open spec fn is_valid_spec(self) -> bool {
        !self.is_sentinel_spec() && !self.is_null_spec()
    }

    /// Whether this value can reference a live object.
    pub fn is_valid(&self) -> (b: bool)
        ensures
            b == self.is_valid_spec(),
    {
        self.bits != INVALID_HANDLE_BITS && self.bits != 0
    }
}

/// The standard handles of a process.
#[derive(Copy, Clone, Debug, PartialEq, Eq, Structural)]
pub enum HandleType {
    /// The process's standard output.
    OutputHandle,
    /// The process's standard input.
    InputHandle,
    /// The process's active console screen buffer, `CONOUT$`.
    CurrentOutputHandle,
    /// The process's console input buffer, `CONIN$`.
    CurrentInputHandle,
}

impl HandleType {
    /// Whether a handle of this type stays owned by the operating system:
    /// true for the standard output and input handles, which this crate must
    /// never close, and false for the console file handles it opens itself
    /// and must close.
    pub open spec fn is_shared_spec(self) -> bool {
        match self {
            HandleType::OutputHandle => true,
            HandleType::InputHandle => true,
            HandleType::CurrentOutputHandle => false,
            HandleType::CurrentInputHandle => false,
        }
    }

    /// Whether a handle of this type stays owned by the operating system.
    pub fn is_shared(&self) -> (b: bool)
        ensures
            b == self.is_shared_spec(),
    {
        match self {
            HandleType::OutputHandle => true,
            HandleType::InputHandle => true,
            HandleType::CurrentOutputHandle => false,
            HandleType::CurrentInputHandle => false,
        }
    }
}

/// One of the console's own device files.
#[derive(Copy, Clone, Debug, PartialEq, Eq, Structural)]
pub enum ConsoleFile {
    /// `CONOUT$`, the active console screen buffer.
    Output,
    /// `CONIN$`, the console input buffer.
    Input,
}

/// The native call that acquires a handle of a given type, with every
/// parameter the call takes.
#[derive(Copy, Clone, Debug, PartialEq, Eq, Structural)]
pub enum Acquisition {
    /// Query the process for one of its standard handles.
    StdDevice {
        /// Which standard device to ask for.
        device: u32,
    },
    /// Open one of the console's device files.
    OpenConsoleFile {
        /// Which device file to open.
        file: ConsoleFile,
        /// The access mask to ask for.
        desired_access: u32,
        /// The sharing to allow other opens of the same file.
        share_mode: u32,
        /// The creation disposition to open with.
        creation_disposition: u32,
        /// The file flags and attributes to open with.
        flags: u32,
    },
}

/// The acquisition that serves a handle type: the standard handles are
/// queried from the process, and the console files are opened for reading
/// and writing, shared both ways, requiring the file to exist.
pub open spec fn acquisition_spec(handle: HandleType) -> Acquisition {
    match handle {
        HandleType::OutputHandle => Acquisition::StdDevice { device: STD_OUTPUT_DEVICE },
        HandleType::InputHandle => Acquisition::StdDevice { device: STD_INPUT_DEVICE },
        HandleType::CurrentOutputHandle => Acquisition::OpenConsoleFile {
            file: ConsoleFile::Output,
            desired_access: GENERIC_READ | GENERIC_WRITE,
            share_mode: FILE_SHARE_READ | FILE_SHARE_WRITE,
            creation_disposition: OPEN_EXISTING,
            flags: 0,
        },
        HandleType::CurrentInputHandle => Acquisition::OpenConsoleFile {
            file: ConsoleFile::Input,
            desired_access: GENERIC_READ | GENERIC_WRITE,
            share_mode: FILE_SHARE_READ | FILE_SHARE_WRITE,
            creation_disposition: OPEN_EXISTING,
            flags: 0,
        },
    }
}

/// A console or file handle together with who owns its lifecycle.
///
/// A shared handle (standard output, standard input) belongs to the
/// operating system and must never be closed by its holder; an exclusively
/// owned one (an opened console file, a created screen buffer, a semaphore)
/// must be closed exactly once when its last holder lets go. The holder's
/// reference counting follows [`crate::ownership::OwnershipState`].
#[derive(Copy, Clone, Debug)]
pub struct Handle {
    raw: RawHandle,
    exclusive: bool,
}

impl Handle {
    /// The native handle value this wrapper describes.
    pub closed spec fn raw_spec(self) -> RawHandle {
        self.raw
    }

    /// Whether the holder owns the native handle's lifecycle.
    pub closed spec fn exclusive_spec(self) -> bool {
        self.exclusive
    }

    /// A handle this crate hands out always carries a value that can
    /// reference a live object.
    pub open spec fn wf(self) -> bool {
        self.raw_spec().is_valid_spec()
    }

    /// What acceptance of an acquisition outcome must produce: the error is
    /// passed through; an acquired value that cannot reference a live object
    /// is refused as an invalid-handle error; any other value becomes a
    /// handle with the given ownership.
    pub open spec fn accepted_spec(
        acquired: Result<RawHandle, OsError>,
        exclusive: bool,
        r: Result<Handle, OsError>,
    ) -> bool {
        &&& r is Ok <==> (acquired matches Ok(raw) && raw.is_valid_spec())
        &&& (r matches Ok(h) ==> {
            &&& h.wf()
            &&& h.raw_spec() == acquired->Ok_0
            &&& h.exclusive_spec() == exclusive
        })
        &&& (acquired matches Err(e) ==> r == Err::<Handle, OsError>(e))
        &&& (acquired matches Ok(raw) && !raw.is_valid_spec() ==> r == Err::<Handle, OsError>(
            OsError { code: ERROR_INVALID_HANDLE },
        ))
    }

    /// Create a new handle of a certain type from the outcome of the
    /// acquisition that serves that type (see [`acquisition_spec`]).
    pub fn new(handle: HandleType, acquired: Result<RawHandle, OsError>) -> (r: Result<
        Handle,
        OsError,
    >)
        ensures
            Handle::accepted_spec(acquired, !handle.is_shared_spec(), r),
    {
        let exclusive = !handle.is_shared();
        Handle::accept(acquired, exclusive)
    }

    /// Construct an exclusively owned handle from a raw handle value.
    ///
    /// The caller guarantees that the value references a live, closable
    /// object; the holder will order it closed when the last reference to it
    /// is dropped.
    pub fn from_raw(raw: RawHandle) -> (h: Handle)
        requires
            raw.is_valid_spec(),
        ensures
            h.raw_spec() == raw,
            h.exclusive_spec(),
            h.wf(),
    {
        Handle { raw, exclusive: true }
    }

    /// Accept the outcome of opening `CONOUT$`, the handle of the active
    /// screen buffer, which its holder owns exclusively.
    pub fn current_out_handle(acquired: Result<RawHandle, OsError>) -> (r: Result<Handle, OsError>)
        ensures
            Handle::accepted_spec(acquired, true, r),
    {
        Handle::accept(acquired, true)
    }

    /// Accept the outcome of opening `CONIN$`, the handle of the console
    /// input buffer, which its holder owns exclusively.
    pub fn current_in_handle(acquired: Result<RawHandle, OsError>) -> (r: Result<Handle, OsError>)
        ensures
            Handle::accepted_spec(acquired, true, r),
    {
        Handle::accept(acquired, true)
    }

    /// Accept the outcome of querying the standard output handle, which
    /// stays owned by the operating system.
    pub fn output_handle(acquired: Result<RawHandle, OsError>) -> (r: Result<Handle, OsError>)
        ensures
            Handle::accepted_spec(acquired, false, r),
    {
        Handle::accept(acquired, false)
    }

    /// Accept the outcome of querying the standard input handle, which
    /// stays owned by the operating system.
    pub fn input_handle(acquired: Result<RawHandle, OsError>) -> (r: Result<Handle, OsError>)
        ensures
            Handle::accepted_spec(acquired, false, r),
    {
        Handle::accept(acquired, false)
    }

    /// Accept the outcome of a native call that created a new kernel object
    /// (a screen buffer, a semaphore): the new handle is owned exclusively,
    /// and its object will be ordered closed with the last reference.
    pub fn from_created(created: Result<RawHandle, OsError>) -> (r: Result<Handle, OsError>)
        ensures
            Handle::accepted_spec(created, true, r),
    {
        Handle::accept(created, true)
    }

    /// Accept or refuse an acquisition outcome under a given ownership.
    fn accept(acquired: Result<RawHandle, OsError>, exclusive: bool) -> (r: Result<Handle, OsError>)
        ensures
            Handle::accepted_spec(acquired, exclusive, r),
    {
        match acquired {
            Err(e) => Err(e),
            Ok(raw) => {
                if raw.is_valid() {
                    Ok(Handle { raw, exclusive })
                } else {
                    Err(OsError::invalid_handle())
                }
            },
        }
    }

    /// The native call, with its parameters, that acquires a handle of the
    /// given type.
    pub fn acquisition(handle: HandleType) -> (a: Acquisition)
        ensures
            a == acquisition_spec(handle),
    {
        match handle {
            HandleType::OutputHandle => Acquisition::StdDevice { device: STD_OUTPUT_DEVICE },
            HandleType::InputHandle => Acquisition::StdDevice { device: STD_INPUT_DEVICE },
            HandleType::CurrentOutputHandle => Acquisition::OpenConsoleFile {
                file: ConsoleFile::Output,
                desired_access: GENERIC_READ | GENERIC_WRITE,
                share_mode: FILE_SHARE_READ | FILE_SHARE_WRITE,
                creation_disposition: OPEN_EXISTING,
                flags: 0,
            },
            HandleType::CurrentInputHandle => Acquisition::OpenConsoleFile {
                file: ConsoleFile::Input,
                desired_access: GENERIC_READ | GENERIC_WRITE,
                share_mode: FILE_SHARE_READ | FILE_SHARE_WRITE,
                creation_disposition: OPEN_EXISTING,
                flags: 0,
            },
        }
    }

    /// For every handle type, creating a handle from an acquisition outcome
    /// either succeeds with a value that is not the invalid-handle sentinel
    /// (nor null), or is an error: success never wraps the sentinel.
    pub proof fn lemma_new_never_wraps_sentinel(
        handle: HandleType,
        acquired: Result<RawHandle, OsError>,
        r: Result<Handle, OsError>,
    )
        requires
            Handle::accepted_spec(acquired, !handle.is_shared_spec(), r),
        ensures
            r matches Ok(h) ==> !h.raw_spec().is_sentinel_spec(),
            r matches Ok(h) ==> !h.raw_spec().is_null_spec(),
            r matches Ok(h) ==> h.wf(),
    {
    }

    /// Checks whether a handle value is not the invalid-handle sentinel.
    pub fn is_valid_handle(handle: &RawHandle) -> (b: bool)
        ensures
            b == !handle.is_sentinel_spec(),
    {
        handle.bits != INVALID_HANDLE_BITS
    }

    /// The native handle value this wrapper describes.
    pub fn raw(&self) -> (r: RawHandle)
        ensures
            r == self.raw_spec(),
    {
        self.raw
    }

    /// Whether the holder owns the native handle's lifecycle and must close
    /// it with the last reference.
    pub fn is_exclusive(&self) -> (b: bool)
        ensures
            b == self.exclusive_spec(),
    {
        self.exclusive
    }
}

} // verus!
