//! Input events, as plain values, and the actions a step of the session
//! hands to its host.

use vstd::prelude::*;

verus! {

/// The key of a key event, as far as the session tells keys apart.
#[derive(Clone, Copy, Debug, PartialEq, Eq, Structural)]
pub enum KeyCode {
    Char(char),
    Up,
    Down,
    Enter,
    Esc,
    Backspace,
    Tab,
    Other,
}

/// A key event: the key, the modifiers held, and whether the key went down.
#[derive(Clone, Copy, Debug, PartialEq, Eq, Structural)]
pub struct KeyEvent {
    pub code: KeyCode,
    pub control: bool,
    pub shift: bool,
    pub press: bool,
}

/// What the mouse did.
#[derive(Clone, Copy, Debug, PartialEq, Eq, Structural)]
pub enum MouseEventKind {
    Down,
    Moved,
    Other,
}

/// A mouse event: what happened, and in which terminal row.
#[derive(Clone, Copy, Debug, PartialEq, Eq, Structural)]
pub struct MouseEvent {
    pub kind: MouseEventKind,
    pub row: u16,
}

/// An input event.
#[derive(Clone, Copy, Debug, PartialEq, Eq, Structural)]
pub enum Event {
    Key(KeyEvent),
    Mouse(MouseEvent),
    Other,
}

/// What the host is to do after a step of the session. Each action but
/// `Idle` is answered by the call named with it.
#[derive(Debug)]
pub enum Action {
    /// Nothing.
    Idle,
    /// Overwrite the vault file with these sealed bytes, then report with
    /// `save_finished`.
    WriteVault(Vec<u8>),
    /// Put this text on the clipboard, then report with `copy_finished`.
    CopyCode(String),
    /// Resolve this path, look at the file there, and hand what was found to
    /// `import_entries`.
    ReadImport(String),
    /// Resolve this path, settle the target with `export_target`, write the
    /// contents there in the clear, then report with `export_finished`.
    WriteExport { path: String, contents: String },
    /// Work out the directory the file browser starts in, list it, and hand
    /// both to `FileBrowser::reset`.
    OpenBrowser,
    /// List this directory and hand the listing to
    /// `FileBrowser::refresh_entries`.
    ListDirectory(String),
}

impl KeyEvent {
    /// A press of `code` with no modifier held.
    pub open spec fn plain(code: KeyCode) -> KeyEvent {
        KeyEvent { code, control: false, shift: false, press: true }
    }

    /// Makes a press of `code` with no modifier held.
    pub fn pressed(code: KeyCode) -> (key: KeyEvent)
        ensures
            key == KeyEvent::plain(code),
    {
        KeyEvent { code, control: false, shift: false, press: true }
    }
}

} // verus!
