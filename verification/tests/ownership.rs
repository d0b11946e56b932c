use crossterm_winapi::{Handle, HandleType, OwnershipState, RawHandle};

// An exclusively owned handle is closed exactly once however many clones
// exist: cloning three times and dropping all four references orders
// exactly one close, on the very last drop.
#[test]
fn exclusive_handle_closes_exactly_once() {
    let mut state = OwnershipState::start(true);
    state.on_clone();
    state.on_clone();
    state.on_clone();
    assert_eq!(state.refs, 4);

    let mut closes = 0;
    for _ in 0..4 {
        if state.on_drop() {
            closes += 1;
        }
    }
    assert_eq!(closes, 1);
    assert_eq!(state.refs, 0);
}

#[test]
fn only_the_last_drop_closes() {
    let mut state = OwnershipState::start(true);
    state.on_clone();
    assert!(!state.on_drop());
    assert!(state.on_drop());
}

// A shared standard handle is never closed, even after every reference is
// dropped.
#[test]
fn shared_handle_is_never_closed() {
    let mut state = OwnershipState::start(false);
    state.on_clone();
    state.on_clone();
    assert!(!state.on_drop());
    assert!(!state.on_drop());
    assert!(!state.on_drop());
    assert_eq!(state.refs, 0);
}

// The bookkeeping of a standard handle never closes; the bookkeeping of an
// opened console file closes with its last reference.
#[test]
fn bookkeeping_follows_the_handle_ownership() {
    let shared = Handle::new(HandleType::OutputHandle, Ok(RawHandle::new(3))).unwrap();
    let mut state = OwnershipState::for_handle(&shared);
    assert!(!state.exclusive);
    assert!(!state.on_drop());

    let exclusive = Handle::new(HandleType::CurrentInputHandle, Ok(RawHandle::new(4))).unwrap();
    let mut state = OwnershipState::for_handle(&exclusive);
    assert!(state.exclusive);
    assert!(state.on_drop());
}

#[test]
fn clone_counts_a_reference() {
    let mut state = OwnershipState::start(true);
    assert_eq!(state.refs, 1);
    state.on_clone();
    assert_eq!(state.refs, 2);
    assert!(state.exclusive);
}
