use crossterm_winapi::{
    Acquisition, ConsoleFile, Handle, HandleType, OsError, RawHandle,
};

#[test]
fn test_get_handle() {
    let ok = || Ok(RawHandle::new(7));
    assert!(Handle::new(HandleType::OutputHandle, ok()).is_ok());
    assert!(Handle::new(HandleType::InputHandle, ok()).is_ok());
    assert!(Handle::new(HandleType::CurrentOutputHandle, ok()).is_ok());
    assert!(Handle::new(HandleType::CurrentInputHandle, ok()).is_ok());
}

#[test]
fn standard_handles_are_shared() {
    let out = Handle::new(HandleType::OutputHandle, Ok(RawHandle::new(42))).unwrap();
    assert!(!out.is_exclusive());
    assert_eq!(out.raw().bits, 42);

    let input = Handle::new(HandleType::InputHandle, Ok(RawHandle::new(43))).unwrap();
    assert!(!input.is_exclusive());
    assert_eq!(input.raw().bits, 43);
}

#[test]
fn console_file_handles_are_exclusive() {
    let out = Handle::new(HandleType::CurrentOutputHandle, Ok(RawHandle::new(44))).unwrap();
    assert!(out.is_exclusive());
    assert_eq!(out.raw().bits, 44);

    let input = Handle::new(HandleType::CurrentInputHandle, Ok(RawHandle::new(45))).unwrap();
    assert!(input.is_exclusive());
    assert_eq!(input.raw().bits, 45);
}

#[test]
fn acquisition_error_is_passed_through() {
    let r = Handle::new(HandleType::OutputHandle, Err(OsError::new(5)));
    assert!(matches!(r, Err(e) if e.code() == 5));
}

// A success never wraps the invalid-handle sentinel (nor the null handle):
// such an outcome is refused as an invalid-handle error.
#[test]
fn sentinel_and_null_are_never_accepted() {
    for handle_type in [
        HandleType::OutputHandle,
        HandleType::InputHandle,
        HandleType::CurrentOutputHandle,
        HandleType::CurrentInputHandle,
    ] {
        let sentinel = Handle::new(handle_type, Ok(RawHandle::new(usize::MAX)));
        assert!(matches!(sentinel, Err(e) if e.code() == 6));

        let null = Handle::new(handle_type, Ok(RawHandle::new(0)));
        assert!(matches!(null, Err(e) if e.code() == 6));

        let accepted = Handle::new(handle_type, Ok(RawHandle::new(7)));
        let handle = accepted.unwrap();
        assert!(Handle::is_valid_handle(&handle.raw()));
        assert!(handle.raw().is_valid());
    }
}

#[test]
fn named_acceptors_match_their_handle_types() {
    let raw = || Ok(RawHandle::new(9));
    assert!(!Handle::output_handle(raw()).unwrap().is_exclusive());
    assert!(!Handle::input_handle(raw()).unwrap().is_exclusive());
    assert!(Handle::current_out_handle(raw()).unwrap().is_exclusive());
    assert!(Handle::current_in_handle(raw()).unwrap().is_exclusive());
    assert!(Handle::from_created(raw()).unwrap().is_exclusive());
}

#[test]
fn from_raw_takes_exclusive_ownership() {
    let handle = Handle::from_raw(RawHandle::new(1234));
    assert!(handle.is_exclusive());
    assert_eq!(handle.raw().bits, 1234);
}

#[test]
fn is_valid_handle_checks_the_sentinel_only() {
    assert!(!Handle::is_valid_handle(&RawHandle::new(usize::MAX)));
    assert!(Handle::is_valid_handle(&RawHandle::new(1)));
    // The null handle is not the sentinel, even though an acquisition
    // reporting it is refused.
    assert!(Handle::is_valid_handle(&RawHandle::new(0)));
    assert!(!RawHandle::new(0).is_valid());
}

#[test]
fn standard_devices_are_queried() {
    assert_eq!(
        Handle::acquisition(HandleType::OutputHandle),
        Acquisition::StdDevice { device: 0xFFFF_FFF5 }
    );
    assert_eq!(
        Handle::acquisition(HandleType::InputHandle),
        Acquisition::StdDevice { device: 0xFFFF_FFF6 }
    );
}

#[test]
fn console_files_are_opened_read_write_shared_existing() {
    assert_eq!(
        Handle::acquisition(HandleType::CurrentOutputHandle),
        Acquisition::OpenConsoleFile {
            file: ConsoleFile::Output,
            desired_access: 0xC000_0000,
            share_mode: 0x3,
            creation_disposition: 3,
            flags: 0,
        }
    );
    assert_eq!(
        Handle::acquisition(HandleType::CurrentInputHandle),
        Acquisition::OpenConsoleFile {
            file: ConsoleFile::Input,
            desired_access: 0xC000_0000,
            share_mode: 0x3,
            creation_disposition: 3,
            flags: 0,
        }
    );
}

#[test]
fn os_error_keeps_its_code() {
    assert_eq!(OsError::new(87).code(), 87);
    assert_eq!(OsError::invalid_handle().code(), 6);
}
