//! The system clipboard: opening it once, reading and writing its text,
//! and the failures of each.
use vstd::prelude::*;

use crate::text::concat_str;

verus! {

/// Why the clipboard could not be used.
#[derive(Debug)]
pub enum ClipboardError {
    LockError,
    InitError(String),
    ReadError(String),
    WriteError(String),
}

/// The message a clipboard failure is shown with.
pub open spec fn clipboard_error_text(e: &ClipboardError) -> Seq<char> {
    match e {
        ClipboardError::LockError => "Failed to acquire clipboard lock"@,
        ClipboardError::InitError(m) => "Failed to initialize clipboard: "@ + m@,
        ClipboardError::ReadError(m) => "Failed to read clipboard: "@ + m@,
        ClipboardError::WriteError(m) => "Failed to write clipboard: "@ + m@,
    }
}

impl ClipboardError {
    /// The message this failure is shown with.
    pub fn to_string(&self) -> (res: String)
        ensures
            res@ == clipboard_error_text(self),
    {
        match self {
            ClipboardError::LockError => "Failed to acquire clipboard lock".to_string(),
            ClipboardError::InitError(m) => concat_str("Failed to initialize clipboard: ", m.as_str()),
            ClipboardError::ReadError(m) => concat_str("Failed to read clipboard: ", m.as_str()),
            ClipboardError::WriteError(m) => concat_str("Failed to write clipboard: ", m.as_str()),
        }
    }
}

/// The system clipboard of the `arboard` crate.
#[verifier::external_type_specification]
#[verifier::external_body]
pub struct ExSystemClipboard(arboard::Clipboard);

/// A connection to the system clipboard, and the text last put on the
/// clipboard through it.
pub struct SystemClipboard {
    clipboard: arboard::Clipboard,
    written: Ghost<Option<Seq<char>>>,
}

impl SystemClipboard {
    /// The text last put on the clipboard through this connection, if any.
    pub closed spec fn written(&self) -> Option<Seq<char>> {
        self.written@
    }
}

/// `arboard::Clipboard::new`: connects to the system clipboard, or gives the
/// text of the failure. Whether it succeeds depends on the machine, so
/// nothing is stated of that; a new connection has put nothing on the
/// clipboard yet.
#[verifier::external_body]
fn open_system_clipboard() -> (res: Result<SystemClipboard, String>)
    ensures
        res matches Ok(c) ==> c.written() is None,
{
    match arboard::Clipboard::new() {
        Ok(clipboard) => Ok(SystemClipboard { clipboard, written: Ghost(None) }),
        Err(e) => Err(e.to_string()),
    }
}

/// `arboard::Clipboard::get_text`: the clipboard's current text, or the
/// text of the failure. What it holds is set by any program, so nothing is
/// stated of the result; reading puts nothing on the clipboard.
#[verifier::external_body]
fn system_clipboard_text(clipboard: &mut SystemClipboard) -> (res: Result<String, String>)
    ensures
        final(clipboard).written() == old(clipboard).written(),
{
    clipboard.clipboard.get_text().map_err(|e| e.to_string())
}

/// `arboard::Clipboard::set_text`: hands `text` to the clipboard, or gives
/// the text of the failure. Whether it succeeds depends on the machine; on
/// success `text` is the text last put on the clipboard through this
/// connection, on failure that is unchanged.
#[verifier::external_body]
fn set_system_clipboard_text(clipboard: &mut SystemClipboard, text: &str) -> (res: Result<(), String>)
    ensures
        res is Ok ==> final(clipboard).written() == Some(text@),
        res is Err ==> final(clipboard).written() == old(clipboard).written(),
{
    clipboard.clipboard.set_text(text).map_err(|e| e.to_string())
}

/// What the connection in `slot` has put on the clipboard, if there is one.
pub open spec fn slot_written(slot: Option<SystemClipboard>) -> Option<Seq<char>> {
    match slot {
        Some(c) => c.written(),
        None => None,
    }
}

/// The clipboard kept in `slot`, connected first when there is none yet.
/// A failed connection leaves `slot` empty and is an `InitError`.
fn take_or_open(slot: &mut Option<SystemClipboard>) -> (res: Result<SystemClipboard, ClipboardError>)
    ensures
        *final(slot) is None,
        res matches Err(e) ==> *old(slot) is None && e is InitError,
        *old(slot) matches Some(c) ==> res == Ok::<SystemClipboard, ClipboardError>(c),
        res matches Ok(c) ==> c.written() == slot_written(*old(slot)),
{
    match slot.take() {
        Some(c) => Ok(c),
        None => match open_system_clipboard() {
            Ok(c) => Ok(c),
            Err(m) => Err(ClipboardError::InitError(m)),
        },
    }
}

/// Reads the clipboard's text through the clipboard kept in `slot`,
/// connecting to it first when `slot` is empty; the connection is kept
/// for later calls, and reading puts nothing on the clipboard.
///
/// A failed connection is an `InitError` and leaves `slot` empty; a failed
/// read is a `ReadError` and keeps the connection.
pub fn read_clipboard(slot: &mut Option<SystemClipboard>) -> (res: Result<String, ClipboardError>)
    ensures
        *final(slot) is Some <==> !(res matches Err(ClipboardError::InitError(_))),
        res matches Err(ClipboardError::InitError(_)) ==> *old(slot) is None,
        res matches Err(e) ==> e is InitError || e is ReadError,
        slot_written(*final(slot)) == slot_written(*old(slot)),
{
    let mut clipboard = take_or_open(slot)?;
    let res = match system_clipboard_text(&mut clipboard) {
        Ok(t) => Ok(t),
        Err(m) => Err(ClipboardError::ReadError(m)),
    };
    *slot = Some(clipboard);
    res
}

/// Puts `text` on the clipboard through the clipboard kept in `slot`,
/// connecting to it first when `slot` is empty; the connection is kept
/// for later calls.
///
/// On success `text` is what the connection last put on the clipboard. A
/// failed connection is an `InitError` and leaves `slot` empty; a failed
/// write is a `WriteError`, keeps the connection and changes nothing it
/// has put on the clipboard.
pub fn write_clipboard(slot: &mut Option<SystemClipboard>, text: &str) -> (res: Result<(), ClipboardError>)
    ensures
        *final(slot) is Some <==> !(res matches Err(ClipboardError::InitError(_))),
        res matches Err(ClipboardError::InitError(_)) ==> *old(slot) is None,
        res matches Err(e) ==> e is InitError || e is WriteError,
        res is Ok ==> slot_written(*final(slot)) == Some(text@),
        res is Err ==> slot_written(*final(slot)) == slot_written(*old(slot)),
{
    let mut clipboard = take_or_open(slot)?;
    let res = match set_system_clipboard_text(&mut clipboard, text) {
        Ok(()) => Ok(()),
        Err(m) => Err(ClipboardError::WriteError(m)),
    };
    *slot = Some(clipboard);
    res
}

} // verus!
