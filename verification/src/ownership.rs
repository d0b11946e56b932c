//! Reference-counted ownership of a native handle.
//!
//! A handle is shared freely across clones; the native object behind it must
//! be released exactly once, and only when the wrapper owns its lifecycle.
//! This module is that discipline made explicit: a count of live references
//! together with the ownership flag, stepped by clone and drop events. The
//! step that retires the last reference of an exclusively owned handle — and
//! no other step — orders a close of the native handle. The lemmas at the
//! bottom prove the two laws a reference-counting host must then honour: an
//! exclusively owned handle is closed exactly once however many clones were
//! made, and a shared handle is never closed at all.

use vstd::prelude::*;

use crate::handle::Handle;

verus! {

/// One event in the life of a handle wrapper: a clone of it was made, or a
/// clone of it (possibly the original) was dropped.
#[derive(Copy, Clone, Debug, PartialEq, Eq, Structural)]
pub enum OwnerEvent {
    /// A new reference to the same native handle came to exist.
    Cloned,
    /// One reference to the native handle went away.
    Dropped,
}

/// The bookkeeping state for one native handle: how many references to it
/// are live, and whether the wrapper owns the native object's lifecycle.
#[derive(Copy, Clone, Debug, PartialEq, Eq, Structural)]
pub struct OwnershipState {
    /// The number of live references.
    pub refs: u64,
    /// Whether the native handle must be closed when the last reference
    /// goes away. Standard handles are owned by the operating system and
    /// carry `false`; created objects carry `true`.
    pub exclusive: bool,
}

impl OwnershipState {
    /// Whether an event may happen in this state: any event needs a live
    /// reference to happen to, and a clone needs room to count one more.
    pub open spec fn event_ok(self, event: OwnerEvent) -> bool {
        match event {
            OwnerEvent::Cloned => 1 <= self.refs < u64::MAX,
            OwnerEvent::Dropped => 1 <= self.refs,
        }
    }

    /// The state after an event.
    pub open spec fn step(self, event: OwnerEvent) -> OwnershipState
        recommends
            self.event_ok(event),
    {
        match event {
            OwnerEvent::Cloned => OwnershipState { refs: (self.refs + 1) as u64, ..self },
            OwnerEvent::Dropped => OwnershipState { refs: (self.refs - 1) as u64, ..self },
        }
    }

    /// Whether an event orders the native handle closed: exactly the drop of
    /// the last reference to an exclusively owned handle.
    pub open spec fn step_closes(self, event: OwnerEvent) -> bool {
        event is Dropped && self.exclusive && self.refs == 1
    }

    /// The bookkeeping for a handle that one wrapper value was just built
    /// around.
    pub fn start(exclusive: bool) -> (s: OwnershipState)
        ensures
            s.refs == 1,
            s.exclusive == exclusive,
    {
        OwnershipState { refs: 1, exclusive }
    }

    /// The bookkeeping for a freshly accepted handle: one live reference,
    /// owning the native object's lifecycle exactly when the handle does.
    /// From here, [`lemma_exclusive_closes_once`] and
    /// [`lemma_shared_never_closes`] say how often any possible life of the
    /// handle closes the native object.
    pub fn for_handle(handle: &Handle) -> (s: OwnershipState)
        ensures
            s.refs == 1,
            s.exclusive == handle.exclusive_spec(),
    {
        OwnershipState { refs: 1, exclusive: handle.is_exclusive() }
    }

    /// Record that a new reference to the handle was made.
    pub fn on_clone(&mut self)
        requires
            old(self).event_ok(OwnerEvent::Cloned),
        ensures
            *final(self) == old(self).step(OwnerEvent::Cloned),
    {
        self.refs = self.refs + 1;
    }

    /// Record that a reference went away. Returns whether the native handle
    /// must be closed now: true exactly when the dropped reference was the
    /// last one and the handle is exclusively owned.
    pub fn on_drop(&mut self) -> (close: bool)
        requires
            old(self).event_ok(OwnerEvent::Dropped),
        ensures
            *final(self) == old(self).step(OwnerEvent::Dropped),
            close == old(self).step_closes(OwnerEvent::Dropped),
    {
        self.refs = self.refs - 1;
        self.refs == 0 && self.exclusive
    }
}

/// Whether a sequence of events can happen from a starting state: each event
/// in turn is possible in the state the ones before it produced.
pub open spec fn trace_ok(s: OwnershipState, events: Seq<OwnerEvent>) -> bool
    decreases events.len(),
{
    events.len() == 0 || (s.event_ok(events[0]) && trace_ok(
        s.step(events[0]),
        events.drop_first(),
    ))
}

/// How many of the events in a sequence order the native handle closed.
pub open spec fn closes_in(s: OwnershipState, events: Seq<OwnerEvent>) -> nat
    decreases events.len(),
{
    if events.len() == 0 {
        0
    } else {
        (if s.step_closes(events[0]) {
            1nat
        } else {
            0nat
        }) + closes_in(s.step(events[0]), events.drop_first())
    }
}

/// How many events in a sequence are clones.
pub open spec fn clones_in(events: Seq<OwnerEvent>) -> nat
    decreases events.len(),
{
    if events.len() == 0 {
        0
    } else {
        (if events[0] is Cloned {
            1nat
        } else {
            0nat
        }) + clones_in(events.drop_first())
    }
}

/// How many events in a sequence are drops.
pub open spec fn drops_in(events: Seq<OwnerEvent>) -> nat
    decreases events.len(),
{
    if events.len() == 0 {
        0
    } else {
        (if events[0] is Dropped {
            1nat
        } else {
            0nat
        }) + drops_in(events.drop_first())
    }
}

/// How often a possible sequence of clone and drop events closes the native
/// handle: once, if the handle is exclusively owned and the drops in the
/// sequence retire the original reference and every clone; otherwise never.
pub proof fn lemma_close_count(s: OwnershipState, events: Seq<OwnerEvent>)
    requires
        1 <= s.refs,
        trace_ok(s, events),
    ensures
        closes_in(s, events) == if s.exclusive && s.refs + clones_in(events) == drops_in(
            events,
        ) {
            1nat
        } else {
            0nat
        },
    decreases events.len(),
{
    if events.len() == 0 {
        assert(drops_in(events) == 0);
        assert(clones_in(events) == 0);
    } else {
        let first = events[0];
        let rest = events.drop_first();
        let next = s.step(first);
        if first is Cloned {
            assert(!s.step_closes(first));
            lemma_close_count(next, rest);
        } else {
            if s.refs == 1 {
                // The drop retired the last reference; nothing can happen
                // after it, so the sequence ends here.
                assert(next.refs == 0);
                assert(trace_ok(next, rest));
                if rest.len() != 0 {
                    assert(next.event_ok(rest[0]));
                    assert(false);
                }
                assert(closes_in(next, rest) == 0);
                assert(drops_in(rest) == 0);
                assert(clones_in(rest) == 0);
            } else {
                assert(!s.step_closes(first));
                lemma_close_count(next, rest);
            }
        }
    }
}

/// An exclusively owned handle is closed exactly once, however many clones
/// were made: any possible run of events that makes some number of clones
/// and drops the original reference and every clone closes the native
/// handle exactly one time.
pub proof fn lemma_exclusive_closes_once(s: OwnershipState, events: Seq<OwnerEvent>)
    requires
        s.refs == 1,
        s.exclusive,
        trace_ok(s, events),
        drops_in(events) == clones_in(events) + 1,
    ensures
        closes_in(s, events) == 1,
{
    lemma_close_count(s, events);
}

/// A shared handle is never closed by this bookkeeping, whatever events
/// happen to it.
pub proof fn lemma_shared_never_closes(s: OwnershipState, events: Seq<OwnerEvent>)
    requires
        1 <= s.refs,
        !s.exclusive,
        trace_ok(s, events),
    ensures
        closes_in(s, events) == 0,
{
    lemma_close_count(s, events);
}

} // verus!
