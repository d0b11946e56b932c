//! A native counting semaphore used as a binary gate.

use vstd::prelude::*;

use crate::error::{OsError, ERROR_TOO_MANY_POSTS};
use crate::handle::{Handle, RawHandle};

verus! {

/// The count a semaphore of this crate is created with.
pub const SEMAPHORE_INITIAL_COUNT: i32 = 0;

/// The largest count a semaphore of this crate can reach: one, a binary
/// gate.
pub const SEMAPHORE_MAXIMUM_COUNT: i32 = 1;

/// The outcome of an acceptance, seen at the handle: the wrapper's handle on
/// success, the same error on failure.
pub open spec fn handle_result_of(r: Result<Semaphore, OsError>) -> Result<Handle, OsError> {
    match r {
        Ok(s) => Ok(s.handle_spec()),
        Err(e) => Err(e),
    }
}

/// A wrapper around a native counting semaphore, created unnamed with count
/// zero and maximum count one (see [`SemaphoreCount`] for what the platform
/// documents of the count). The wrapper only releases; callers wait on the
/// exposed handle with platform primitives of their own.
#[derive(Copy, Clone, Debug)]
pub struct Semaphore(pub Handle);

impl Semaphore {
    /// The handle this wrapper drives.
    pub open spec fn handle_spec(self) -> Handle {
        self.0
    }

    /// Construct a new semaphore from the outcome of creating the native
    /// object — unnamed, with count [`SEMAPHORE_INITIAL_COUNT`] and maximum
    /// count [`SEMAPHORE_MAXIMUM_COUNT`], and no security attributes. The
    /// handle is owned exclusively.
    pub fn new(created: Result<RawHandle, OsError>) -> (r: Result<Semaphore, OsError>)
        ensures
            Handle::accepted_spec(created, true, handle_result_of(r)),
    {
        match Handle::from_created(created) {
            Ok(handle) => Ok(Semaphore(handle)),
            Err(e) => Err(e),
        }
    }

    /// Access the underlying handle to the semaphore.
    pub fn handle(&self) -> (h: &Handle)
        ensures
            h == self.handle_spec(),
    {
        &self.0
    }
}

/// A native semaphore's count, as the platform documents it: a release
/// raises the count by one and signals one waiter, unless the count already
/// stands at the maximum, in which case the release fails and changes
/// nothing.
#[derive(Copy, Clone, Debug, PartialEq, Eq, Structural)]
pub struct SemaphoreCount {
    /// The current count.
    pub count: i32,
    /// The count's maximum.
    pub max: i32,
}

impl SemaphoreCount {
    /// A count stands between zero and its maximum, and the maximum is at
    /// least one.
    pub open spec fn wf(self) -> bool {
        0 <= self.count <= self.max && 1 <= self.max
    }

    /// The count of a semaphore as this crate creates one: zero of at most
    /// one.
    pub open spec fn start_spec() -> SemaphoreCount {
        SemaphoreCount { count: SEMAPHORE_INITIAL_COUNT, max: SEMAPHORE_MAXIMUM_COUNT }
    }

    /// The count of a semaphore as this crate creates one.
    pub fn start() -> (s: SemaphoreCount)
        ensures
            s == SemaphoreCount::start_spec(),
            s.wf(),
    {
        SemaphoreCount { count: SEMAPHORE_INITIAL_COUNT, max: SEMAPHORE_MAXIMUM_COUNT }
    }

    /// Whether a release can succeed: only while the count is under its
    /// maximum.
    pub open spec fn can_release_spec(self) -> bool {
        self.count < self.max
    }

    /// The count after a successful release.
    pub open spec fn released_spec(self) -> SemaphoreCount {
        SemaphoreCount { count: (self.count + 1) as i32, ..self }
    }

    /// Release a permit: raise the count by one, failing — with the count
    /// unchanged — if the count already stands at its maximum.
    pub fn release(&mut self) -> (r: Result<(), OsError>)
        requires
            old(self).wf(),
        ensures
            r is Ok <==> old(self).can_release_spec(),
            r is Ok ==> *final(self) == old(self).released_spec(),
            r is Err ==> *final(self) == *old(self),
            r matches Err(e) ==> e == (OsError { code: ERROR_TOO_MANY_POSTS }),
            final(self).wf(),
    {
        if self.count < self.max {
            self.count = self.count + 1;
            Ok(())
        } else {
            Err(OsError::new(ERROR_TOO_MANY_POSTS))
        }
    }
}

/// A fresh semaphore is a binary gate: from its starting count a release can
/// succeed, and after that one success no further release can succeed until
/// a waiter takes the permit back down.
pub proof fn lemma_release_exactly_once()
    ensures
        SemaphoreCount::start_spec().can_release_spec(),
        !SemaphoreCount::start_spec().released_spec().can_release_spec(),
{
}

} // verus!
