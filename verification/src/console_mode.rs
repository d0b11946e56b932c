//! Working with a console device's mode flags.

use vstd::prelude::*;

use crate::error::OsError;
use crate::handle::{Handle, RawHandle};

verus! {

/// The outcome of an acceptance, seen at the handle: the wrapper's handle on
/// success, the same error on failure.
pub open spec fn handle_result_of(r: Result<ConsoleMode, OsError>) -> Result<Handle, OsError> {
    match r {
        Ok(cm) => Ok(cm.handle_spec()),
        Err(e) => Err(e),
    }
}

/// A wrapper around a console device handle, focusing on getting and setting
/// the device's mode flags. Neither operation caches anything: every set
/// writes and every get reads the device's live mode register (see
/// [`ModeRegister`] for what the platform documents of that register).
#[derive(Copy, Clone, Debug)]
pub struct ConsoleMode {
    /// The handle used for the native calls of this wrapper.
    pub handle: Handle,
}

impl ConsoleMode {
    /// The handle this wrapper drives.
    pub open spec fn handle_spec(self) -> Handle {
        self.handle
    }

    /// Create a new `ConsoleMode` instance from the outcome of querying the
    /// standard output handle, the device this wrapper uses by default. To
    /// drive another device, use `ConsoleMode::from(handle)` instead.
    pub fn new(acquired: Result<RawHandle, OsError>) -> (r: Result<ConsoleMode, OsError>)
        ensures
            Handle::accepted_spec(acquired, false, handle_result_of(r)),
    {
        match Handle::output_handle(acquired) {
            Ok(handle) => Ok(ConsoleMode { handle }),
            Err(e) => Err(e),
        }
    }

    /// The handle this wrapper drives.
    pub fn handle(&self) -> (h: &Handle)
        ensures
            h == self.handle_spec(),
    {
        &self.handle
    }
}

impl From<Handle> for ConsoleMode {
    /// Wrap an already-acquired device handle.
    fn from(handle: Handle) -> (cm: ConsoleMode)
        ensures
            cm.handle_spec() == handle,
    {
        ConsoleMode { handle }
    }
}

impl vstd::std_specs::convert::FromSpecImpl<Handle> for ConsoleMode {
    open spec fn obeys_from_spec() -> bool {
        true
    }

    open spec fn from_spec(handle: Handle) -> ConsoleMode {
        ConsoleMode { handle }
    }
}

/// A console device's mode register, as the platform documents it: a 32-bit
/// bitmask of behaviour flags. Setting the mode stores the given mask whole;
/// querying it reports the stored mask.
#[derive(Copy, Clone, Debug, PartialEq, Eq, Structural)]
pub struct ModeRegister {
    /// The stored bitmask.
    pub mode: u32,
}

impl ModeRegister {
    /// The register after a set of the given mask.
    pub open spec fn set_mode_spec(self, mode: u32) -> ModeRegister {
        ModeRegister { mode }
    }

    /// What a query of the register reports.
    pub open spec fn mode_spec(self) -> u32 {
        self.mode
    }

    /// Set the device's mode to the given bitmask.
    pub fn set_mode(&mut self, console_mode: u32)
        ensures
            *final(self) == old(self).set_mode_spec(console_mode),
    {
        self.mode = console_mode;
    }

    /// Get the device's mode bitmask.
    pub fn mode(&self) -> (m: u32)
        ensures
            m == self.mode_spec(),
    {
        self.mode
    }
}

/// Every bit set in the mask written by a mode set is reported back by the
/// following mode query: setting then getting covers the bits written.
pub proof fn lemma_set_then_mode_covers(register: ModeRegister, mode: u32)
    ensures
        register.set_mode_spec(mode).mode_spec() & mode == mode,
{
    assert(mode & mode == mode) by (bit_vector);
}

} // verus!
