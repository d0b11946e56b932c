use crossterm_winapi::{
    BufferCreation, ConsoleDisplay, Coord, FontInfo, Handle, OsError, RawHandle, ScreenBuffer,
    ScreenBufferInfo, ScreenBufferState, Size, WindowPositions,
};

#[test]
fn creation_parameters_are_the_documented_ones() {
    assert_eq!(
        ScreenBuffer::creation(),
        BufferCreation {
            desired_access: 0xC000_0000,
            share_mode: 0x3,
            inherit_handle: true,
            flags: 1,
        }
    );
}

#[test]
fn created_buffers_own_their_handle() {
    let buffer = ScreenBuffer::create(Ok(RawHandle::new(77))).unwrap();
    assert!(buffer.handle().is_exclusive());
    assert_eq!(buffer.handle().raw().bits, 77);

    let refused = ScreenBuffer::create(Ok(RawHandle::new(usize::MAX)));
    assert!(matches!(refused, Err(e) if e.code() == 6));
}

#[test]
fn current_buffer_owns_its_handle() {
    let buffer = ScreenBuffer::current(Ok(RawHandle::new(78))).unwrap();
    assert!(buffer.handle().is_exclusive());

    let failed = ScreenBuffer::current(Err(OsError::new(2)));
    assert!(matches!(failed, Err(e) if e.code() == 2));
}

#[test]
fn screen_buffer_from_handle_keeps_it() {
    let handle = Handle::from_raw(RawHandle::new(79));
    assert_eq!(ScreenBuffer::new(handle).handle().raw().bits, 79);
    assert_eq!(ScreenBuffer::from(handle).handle().raw().bits, 79);
}

#[test]
fn resize_below_the_window_fails() {
    let mut buffer = ScreenBufferState {
        size: Size::new(120, 30),
        window: Size::new(80, 25),
    };
    let refused = buffer.set_size(79, 9000);
    assert!(matches!(refused, Err(e) if e.code() == 87));
    assert_eq!(buffer.size, Size::new(120, 30));

    let refused = buffer.set_size(120, 24);
    assert!(matches!(refused, Err(e) if e.code() == 87));
    assert_eq!(buffer.size, Size::new(120, 30));
}

// Showing a created buffer makes queries of the current buffer observe the
// new buffer's properties.
#[test]
fn show_makes_current_observe_the_new_buffer() {
    let first = ScreenBufferState {
        size: Size::new(80, 300),
        window: Size::new(80, 25),
    };
    let second = ScreenBufferState {
        size: Size::new(100, 50),
        window: Size::new(90, 40),
    };
    let mut display = ConsoleDisplay { active: first };
    assert_eq!(display.current(), first);

    display.show(second);
    assert_eq!(display.current(), second);
    assert_ne!(display.current().size, first.size);
}

// End to end: read the active buffer's info, resize a fresh buffer to
// 120 x 9000, show it, and observe the requested size in the next query.
// The resize succeeds because neither extent falls under the window's; a
// request below the window's extent is the platform's boundary and fails
// (see resize_below_the_window_fails).
#[test]
fn resize_then_show_is_observed() {
    let mut display = ConsoleDisplay {
        active: ScreenBufferState {
            size: Size::new(80, 300),
            window: Size::new(80, 25),
        },
    };
    let before = display.current();
    assert_eq!(before.size, Size::new(80, 300));

    let mut fresh = ScreenBufferState {
        size: Size::new(80, 300),
        window: Size::new(80, 25),
    };
    fresh.set_size(120, 9000).unwrap();
    display.show(fresh);

    let after = display.current();
    assert_eq!(after.size, Size::new(120, 9000));
    assert_eq!(after.size.width, 120);
    assert_eq!(after.size.height, 9000);
}

#[test]
fn info_snapshot_reports_its_fields() {
    let info = ScreenBufferInfo::new(
        Size::new(120, 300),
        Coord::new(5, 7),
        0x0070,
        WindowPositions::new(2, 1, 81, 25),
        Size::new(160, 80),
    );
    assert_eq!(info.buffer_size(), Size::new(120, 300));
    assert_eq!(info.cursor_pos(), Coord::new(5, 7));
    assert_eq!(info.attributes(), 0x0070);
    assert_eq!(info.terminal_window(), WindowPositions::new(2, 1, 81, 25));
    assert_eq!(info.terminal_size(), Size::new(79, 24));
    assert_eq!(info.largest_window_size(), Size::new(160, 80));
}

#[test]
fn info_snapshot_refuses_a_malformed_window() {
    let refused = ScreenBufferInfo::from_parts(
        Size::new(120, 300),
        Coord::new(0, 0),
        0,
        WindowPositions::new(10, 0, 9, 0),
        Size::new(160, 80),
    );
    assert!(refused.is_none());

    let accepted = ScreenBufferInfo::from_parts(
        Size::new(120, 300),
        Coord::new(0, 0),
        0,
        WindowPositions::new(0, 0, 9, 0),
        Size::new(160, 80),
    );
    assert_eq!(accepted.unwrap().terminal_size(), Size::new(9, 0));
}

#[test]
fn font_snapshot_reports_its_fields() {
    let font = FontInfo::new(3, Size::new(8, 16));
    assert_eq!(font.index(), 3);
    assert_eq!(font.size(), Size::new(8, 16));
}
