use crossterm_winapi::{OsError, RawHandle, Semaphore, SemaphoreCount};

#[test]
fn semaphore_owns_its_handle() {
    let semaphore = Semaphore::new(Ok(RawHandle::new(91))).unwrap();
    assert!(semaphore.handle().is_exclusive());
    assert_eq!(semaphore.handle().raw().bits, 91);
}

#[test]
fn semaphore_creation_error_is_passed_through() {
    let r = Semaphore::new(Err(OsError::new(1450)));
    assert!(matches!(r, Err(e) if e.code() == 1450));
}

// A fresh semaphore releases exactly once per unit of count up to its
// maximum of one: the first release succeeds, a second release without an
// intervening acquire fails.
#[test]
fn release_succeeds_exactly_once() {
    let mut count = SemaphoreCount::start();
    assert_eq!(count.count, 0);
    assert_eq!(count.max, 1);

    assert!(count.release().is_ok());
    assert_eq!(count.count, 1);

    let second = count.release();
    assert!(matches!(second, Err(e) if e.code() == 298));
    assert_eq!(count.count, 1);

    let third = count.release();
    assert!(matches!(third, Err(e) if e.code() == 298));
}
