use ghostwriter_lib::clipboard::{read_clipboard, write_clipboard, ClipboardError, SystemClipboard};

#[test]
fn clipboard_test_error_display() {
    let err = ClipboardError::LockError;
    assert_eq!(err.to_string(), "Failed to acquire clipboard lock");

    let err = ClipboardError::ReadError("no data".to_string());
    assert_eq!(err.to_string(), "Failed to read clipboard: no data");

    let err = ClipboardError::WriteError("permission denied".to_string());
    assert_eq!(
        err.to_string(),
        "Failed to write clipboard: permission denied"
    );

    let err = ClipboardError::InitError("no display".to_string());
    assert_eq!(
        err.to_string(),
        "Failed to initialize clipboard: no display"
    );
}

/// A connection to the system clipboard, or `None` where the machine has
/// none (no display server), in which case the test is skipped.
fn connect() -> Option<Option<SystemClipboard>> {
    let mut slot = None;
    match read_clipboard(&mut slot) {
        Err(ClipboardError::InitError(_)) => {
            assert!(slot.is_none());
            println!("Skipping clipboard test (no display server)");
            None
        }
        _ => {
            assert!(slot.is_some());
            Some(slot)
        }
    }
}

#[test]
fn test_write_then_read() {
    let Some(mut slot) = connect() else { return };
    let text = "GhostWriter test content";
    write_clipboard(&mut slot, text).unwrap();
    let result = read_clipboard(&mut slot).unwrap();
    assert_eq!(result, text);
}

#[test]
fn test_unicode_content() {
    let Some(mut slot) = connect() else { return };
    let text = "Hello, 世界! 🌍✨ Привет";
    write_clipboard(&mut slot, text).unwrap();
    let result = read_clipboard(&mut slot).unwrap();
    assert_eq!(result, text);
}

#[test]
fn test_write_multiple_times() {
    let Some(mut slot) = connect() else { return };
    write_clipboard(&mut slot, "first").unwrap();
    assert_eq!(read_clipboard(&mut slot).unwrap(), "first");

    write_clipboard(&mut slot, "second").unwrap();
    assert_eq!(read_clipboard(&mut slot).unwrap(), "second");

    write_clipboard(&mut slot, "third").unwrap();
    assert_eq!(read_clipboard(&mut slot).unwrap(), "third");
}

#[test]
fn test_empty_string() {
    let Some(mut slot) = connect() else { return };
    write_clipboard(&mut slot, "").unwrap();
    let result = read_clipboard(&mut slot).unwrap();
    assert_eq!(result, "");
}

#[test]
fn clipboard_failed_connection_is_init_error_and_keeps_nothing() {
    let mut slot = None;
    match write_clipboard(&mut slot, "x") {
        Err(ClipboardError::InitError(_)) => assert!(slot.is_none()),
        Err(ClipboardError::WriteError(_)) | Ok(()) => assert!(slot.is_some()),
        Err(other) => panic!("unexpected failure: {:?}", other),
    }
}
