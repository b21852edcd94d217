//! The session: the vault in memory, and the state machine that key events
//! drive.
//!
//! A step takes the state and an event and gives the next state and an
//! [`Action`] for the host. The host performs the action (a write, a read, a
//! clipboard request) and reports back through the call the action names.
//! The vault in memory is changed before the host has written anything: where
//! the write then fails, the change stays and a notification says that saving
//! failed.

use crate::auth_core::crypto::{age_plaintext, Crypto};
use crate::auth_core::document::{
    document_of, entries_of, entry_rows, law_entries_read_back, reads_back, ENTRIES_KEY,
};
use crate::auth_core::entry::{clone_entries, display_at, entries_view, Entries, Entry, EntryText};
use crate::input::event::{Action, Event, KeyCode, KeyEvent, MouseEvent, MouseEventKind};
use crate::input::mouse::handle_mouse_event;
use crate::ui::file_browser::{Browser, Entered, FileBrowser};
use crate::utils::clock::{read_clock, Moment};
use crate::utils::error::{AuthError, AuthResult};
use crate::utils::path::{expand_path as expand, is_plan_of, PathPlan};
use crate::utils::text::{pop_char, push_char, string_from_utf8};
use vstd::arithmetic::div_mod::{lemma_mod_self_0, lemma_small_mod};
use vstd::prelude::*;
use vstd::string::StringExecFns;
use vstd::utf8::{
    decode_utf8, encode_utf8, encode_utf8_decode_utf8, encode_utf8_valid_utf8, valid_utf8,
};

verus! {

/// What the keyboard currently edits or steers.
#[derive(PartialEq, Eq, Clone, Copy, Debug, Structural)]
pub enum InputMode {
    Normal,
    Adding,
    Editing,
    Importing,
    Exporting,
    FileBrowser,
}

/// The field of an entry that typed characters go to.
#[derive(PartialEq, Eq, Clone, Copy, Debug, Structural)]
pub enum InputField {
    Name,
    Secret,
}

/// The session of one user with one vault.
pub struct App {
    pub should_quit: bool,
    pub entries: Vec<Entry>,
    pub selected: usize,
    pub input_mode: InputMode,
    pub new_entry_name: String,
    pub new_entry_secret: String,
    pub edit_entry_name: String,
    pub edit_entry_secret: String,
    pub input_field: InputField,
    pub entries_path: String,
    pub copy_notification_time: Option<Moment>,
    pub path_input: String,
    pub error_message: Option<(String, Moment)>,
    pub crypto: Crypto,
    /// Whether `i` and `e` open the file browser; they ask for a typed path
    /// where it is off.
    pub use_file_browser: bool,
    pub file_browser: FileBrowser,
    /// The operation that the file browser was opened for.
    pub file_operation: Option<InputMode>,
}

/// The state of a session, as a mathematical value.
pub struct Session {
    pub should_quit: bool,
    pub entries: Seq<EntryText>,
    pub selected: int,
    pub input_mode: InputMode,
    pub new_entry_name: Seq<char>,
    pub new_entry_secret: Seq<char>,
    pub edit_entry_name: Seq<char>,
    pub edit_entry_secret: Seq<char>,
    pub input_field: InputField,
    pub entries_path: Seq<char>,
    pub copy_notification_time: Option<Moment>,
    pub path_input: Seq<char>,
    pub error_message: Option<(Seq<char>, Moment)>,
    pub key: Seq<char>,
    pub use_file_browser: bool,
    pub browser: Browser,
    pub file_operation: Option<InputMode>,
}

impl View for App {
    type V = Session;

    open spec fn view(&self) -> Session {
        Session {
            should_quit: self.should_quit,
            entries: entries_view(self.entries@),
            selected: self.selected as int,
            input_mode: self.input_mode,
            new_entry_name: self.new_entry_name@,
            new_entry_secret: self.new_entry_secret@,
            edit_entry_name: self.edit_entry_name@,
            edit_entry_secret: self.edit_entry_secret@,
            input_field: self.input_field,
            entries_path: self.entries_path@,
            copy_notification_time: self.copy_notification_time,
            path_input: self.path_input@,
            error_message: match self.error_message {
                Some((message, time)) => Some((message@, time)),
                None => None,
            },
            key: self.crypto@,
            use_file_browser: self.use_file_browser,
            browser: self.file_browser@,
            file_operation: self.file_operation,
        }
    }
}

/// What the host found where the vault is stored.
#[derive(Debug)]
pub enum VaultFile {
    /// There is no vault file.
    Missing,
    /// There is one, and it could not be read.
    Unreadable,
    /// The bytes of the vault file.
    Contents(Vec<u8>),
}

/// What the host found at the path of an import.
#[derive(Debug)]
pub struct ImportFile {
    /// Whether anything is there.
    pub exists: bool,
    /// Whether it is a directory.
    pub is_dir: bool,
    /// The extension of the path, if it has one.
    pub extension: Option<String>,
    /// The text of the file, or nothing where it could not be read as text.
    pub contents: Option<String>,
}

/// The extension that import and export files carry.
pub const TOML_EXT: &'static str = "toml";

/// The entries that a sealed vault holds for the identity of the key text
/// `key`, or the stage at which opening it fails: the envelope, the
/// encoding, or the document.
pub open spec fn opened_entries(
    key: Seq<char>,
    bytes: Seq<u8>,
) -> Result<Seq<EntryText>, AuthError> {
    match age_plaintext(key, bytes) {
        None => Err(AuthError::DecryptError),
        Some(plain) => if !valid_utf8(plain) {
            Err(AuthError::Utf8Error)
        } else {
            match entries_of(decode_utf8(plain)) {
                None => Err(AuthError::ParseError),
                Some(entries) => Ok(entries),
            }
        },
    }
}

/// What loading a vault file gives: the entries to hold from now on, or
/// nothing to change where there is no file, or the error.
pub open spec fn loaded_entries(
    key: Seq<char>,
    file: VaultFile,
) -> Result<Option<Seq<EntryText>>, AuthError> {
    match file {
        VaultFile::Missing => Ok(None),
        VaultFile::Unreadable => Err(AuthError::ReadError),
        VaultFile::Contents(bytes) => match opened_entries(key, bytes@) {
            Ok(entries) => Ok(Some(entries)),
            Err(e) => Err(e),
        },
    }
}

/// The entries that an import file contributes: those of its text, or none
/// where there is no file, no text, or no document in the text.
pub open spec fn imported_entries(found: ImportFile) -> Seq<EntryText> {
    match found.contents {
        Some(text) => if found.exists && text@.len() > 0 {
            match entries_of(text@) {
                Some(entries) => entries,
                None => Seq::empty(),
            }
        } else {
            Seq::empty()
        },
        None => Seq::empty(),
    }
}

/// What keeps an import file from being read: it is not there, it cannot be
/// read as text, or its text, though not empty, is no document. An empty
/// file is read as no entries.
pub open spec fn import_failure(found: ImportFile) -> Option<AuthError> {
    if !found.exists {
        Some(AuthError::FileNotExistError)
    } else {
        match found.contents {
            None => Some(AuthError::ReadError),
            Some(text) => if text@.len() > 0 && entries_of(text@) is None {
                Some(AuthError::ParseError)
            } else {
                None
            },
        }
    }
}

/// What is wrong with the path of an import: nothing is there, a directory
/// is there, or the extension is not `toml`.
pub open spec fn import_path_fault(found: ImportFile) -> Option<AuthError> {
    if !found.exists {
        Some(AuthError::FileNotExistError)
    } else if found.is_dir {
        Some(AuthError::DirectoryError)
    } else if !(found.extension matches Some(extension) && extension@ == TOML_EXT@) {
        Some(AuthError::TomlExtError)
    } else {
        None
    }
}

impl Session {
    /// The state a session starts in: an empty vault, nothing selected or
    /// typed, no notification.
    pub open spec fn initial(entries_path: Seq<char>, key: Seq<char>) -> Session {
        Session::initial_with(entries_path, key, Browser::initial())
    }

    /// The starting state with the file browser `browser`.
    pub open spec fn initial_with(
        entries_path: Seq<char>,
        key: Seq<char>,
        browser: Browser,
    ) -> Session {
        Session {
            should_quit: false,
            entries: Seq::empty(),
            selected: 0,
            input_mode: InputMode::Normal,
            new_entry_name: Seq::empty(),
            new_entry_secret: Seq::empty(),
            edit_entry_name: Seq::empty(),
            edit_entry_secret: Seq::empty(),
            input_field: InputField::Name,
            entries_path,
            copy_notification_time: None,
            path_input: Seq::empty(),
            error_message: None,
            key,
            use_file_browser: false,
            browser,
            file_operation: None,
        }
    }

    /// The selection points at an entry, or at 0 where the vault is empty,
    /// and the cursor of the file browser stands on a row, where it has one.
    pub open spec fn wf(self) -> bool {
        self.selection_valid() && self.browser.valid()
    }

    /// The selection points at an entry, or at 0 where the vault is empty.
    pub open spec fn selection_valid(self) -> bool {
        0 <= self.selected && (self.selected == 0 || self.selected < self.entries.len())
    }

    /// This state with the notification `message`, raised at `now`.
    pub open spec fn notify(self, message: Seq<char>, now: Moment) -> Session {
        Session { error_message: Some((message, now)), ..self }
    }

    /// This state with the notification of `error`, raised at `now`.
    pub open spec fn fail(self, error: AuthError, now: Moment) -> Session {
        self.notify(error.spec_message(), now)
    }

    /// This state once a save has ended: as it is where the save went well,
    /// with the notification that saving failed where it did not.
    pub open spec fn saved(self, done: bool, now: Moment) -> Session {
        if done {
            self
        } else {
            self.fail(AuthError::SaveError, now)
        }
    }

    /// The selection moved to the next entry, from the last to the first.
    pub open spec fn next_entry(self) -> Session {
        if self.entries.len() == 0 {
            self
        } else {
            Session { selected: (self.selected + 1) % (self.entries.len() as int), ..self }
        }
    }

    /// The selection moved to the previous entry, from the first to the last.
    pub open spec fn previous_entry(self) -> Session {
        if self.entries.len() == 0 {
            self
        } else if self.selected == 0 {
            Session { selected: self.entries.len() - 1, ..self }
        } else {
            Session { selected: self.selected - 1, ..self }
        }
    }

    /// Editing begun on the selected entry: the edit buffers hold its name
    /// and secret, and the name is the active field. Nothing changes where
    /// the vault is empty.
    pub open spec fn start_editing(self) -> Session {
        if self.entries.len() == 0 {
            self
        } else {
            Session {
                edit_entry_name: self.entries[self.selected].0,
                edit_entry_secret: self.entries[self.selected].1,
                input_mode: InputMode::Editing,
                input_field: InputField::Name,
                ..self
            }
        }
    }

    /// Adding begun: empty buffers, the name as the active field.
    pub open spec fn start_adding(self) -> Session {
        Session {
            new_entry_name: Seq::empty(),
            new_entry_secret: Seq::empty(),
            input_mode: InputMode::Adding,
            input_field: InputField::Name,
            ..self
        }
    }

    /// A path being asked for, for an import or an export: the path buffer
    /// is empty.
    pub open spec fn start_file_mode(self, mode: InputMode) -> Session {
        Session { path_input: Seq::empty(), input_mode: mode, ..self }
    }

    /// The buffers of the current entry mode cleared, the name as the active
    /// field, and the mode back to normal.
    pub open spec fn reset_entry_state(self) -> Session {
        if self.input_mode == InputMode::Adding {
            Session {
                new_entry_name: Seq::empty(),
                new_entry_secret: Seq::empty(),
                input_mode: InputMode::Normal,
                input_field: InputField::Name,
                ..self
            }
        } else {
            Session {
                edit_entry_name: Seq::empty(),
                edit_entry_secret: Seq::empty(),
                input_mode: InputMode::Normal,
                input_field: InputField::Name,
                ..self
            }
        }
    }

    /// The path buffer cleared and the mode back to normal.
    pub open spec fn reset_file_mode(self) -> Session {
        Session { path_input: Seq::empty(), input_mode: InputMode::Normal, ..self }
    }

    /// The text of the buffer that typed characters go to: the add buffers
    /// while adding, the edit buffers otherwise.
    pub open spec fn current_field(self) -> Seq<char> {
        match (self.input_mode, self.input_field) {
            (InputMode::Adding, InputField::Name) => self.new_entry_name,
            (InputMode::Adding, InputField::Secret) => self.new_entry_secret,
            (_, InputField::Name) => self.edit_entry_name,
            (_, InputField::Secret) => self.edit_entry_secret,
        }
    }

    /// This state with `text` in the buffer that typed characters go to.
    pub open spec fn with_current_field(self, text: Seq<char>) -> Session {
        match (self.input_mode, self.input_field) {
            (InputMode::Adding, InputField::Name) => Session { new_entry_name: text, ..self },
            (InputMode::Adding, InputField::Secret) => Session { new_entry_secret: text, ..self },
            (_, InputField::Name) => Session { edit_entry_name: text, ..self },
            (_, InputField::Secret) => Session { edit_entry_secret: text, ..self },
        }
    }

    /// The other field made the active one.
    pub open spec fn toggle_field(self) -> Session {
        Session {
            input_field: match self.input_field {
                InputField::Name => InputField::Secret,
                InputField::Secret => InputField::Name,
            },
            ..self
        }
    }

    /// The document of the vault: the text it is stored as, or nothing where
    /// the vault cannot be written down.
    pub open spec fn document(self) -> Option<Seq<char>> {
        document_of(self.entries)
    }

    /// Whether `bytes` is a sealed copy of the vault: an envelope that the
    /// session's identity opens to the document, encoded as UTF-8.
    pub open spec fn sealed_as(self, bytes: Seq<u8>) -> bool {
        match self.document() {
            Some(text) => age_plaintext(self.key, bytes) == Some(encode_utf8(text)),
            None => false,
        }
    }

    /// Whether the add buffers hold an entry that may be added: a name and a
    /// secret, neither empty.
    pub open spec fn can_add(self) -> bool {
        self.new_entry_name.len() > 0 && self.new_entry_secret.len() > 0
    }

    /// Whether the edit buffers hold an entry that may replace the selected
    /// one: the vault is not empty, and neither the name nor the secret is.
    pub open spec fn can_edit(self) -> bool {
        self.entries.len() > 0 && self.edit_entry_name.len() > 0 && self.edit_entry_secret.len()
            > 0
    }

    /// The entry of the add buffers appended, and the save that follows
    /// ended; without a name or a secret, nothing but a notification.
    pub open spec fn add_entry(self, saved: bool, now: Moment) -> Session {
        if self.can_add() {
            Session {
                entries: self.entries.push((self.new_entry_name, self.new_entry_secret)),
                ..self
            }.saved(saved, now)
        } else {
            self.fail(AuthError::EmptyEntryError, now)
        }
    }

    /// The selected entry removed, the selection kept on an entry, and the
    /// save that follows ended; nothing on an empty vault.
    pub open spec fn delete_entry(self, saved: bool, now: Moment) -> Session {
        if self.entries.len() == 0 {
            self
        } else {
            let entries = self.entries.remove(self.selected);
            let last = if entries.len() == 0 {
                0
            } else {
                entries.len() - 1
            };
            Session {
                entries,
                selected: if self.selected < last {
                    self.selected
                } else {
                    last
                },
                ..self
            }.saved(saved, now)
        }
    }

    /// Every entry removed, the selection at 0, and the save that follows
    /// ended; nothing on an empty vault.
    pub open spec fn delete_all_entries(self, saved: bool, now: Moment) -> Session {
        if self.entries.len() == 0 {
            self
        } else {
            Session { entries: Seq::empty(), selected: 0, ..self }.saved(saved, now)
        }
    }

    /// The selected entry replaced by the entry of the edit buffers, and the
    /// save that follows ended; nothing on an empty vault, and nothing but a
    /// notification without a name or a secret.
    pub open spec fn edit_entry(self, saved: bool, now: Moment) -> Session {
        if self.entries.len() == 0 {
            self
        } else if self.can_edit() {
            Session {
                entries: self.entries.update(
                    self.selected,
                    (self.edit_entry_name, self.edit_entry_secret),
                ),
                ..self
            }.saved(saved, now)
        } else {
            self.fail(AuthError::EmptyEntryError, now)
        }
    }

    /// The outcome of a clipboard request noted: the time of the copy where
    /// it went well, a notification where it did not.
    pub open spec fn copied(self, done: bool, now: Moment) -> Session {
        if done {
            Session { copy_notification_time: Some(now), ..self }
        } else {
            self.fail(AuthError::ClipboardError, now)
        }
    }

    /// What is copied for the selected entry at `now`: its code, or the
    /// invalid label. Nothing on an empty vault.
    pub open spec fn code_to_copy(self, now: Moment) -> Option<Seq<char>> {
        if self.entries.len() == 0 {
            None
        } else {
            Some(display_at(self.entries[self.selected].1, now.secs).0)
        }
    }

    /// Whether `key` is the request to quit that every mode honours: `q` or
    /// `c` with the control key held.
    pub open spec fn is_control_quit(key: KeyEvent) -> bool {
        key.control && (key.code == KeyCode::Char('q') || key.code == KeyCode::Char('c'))
    }

    /// This state with the request to quit noted.
    pub open spec fn quit(self) -> Session {
        Session { should_quit: true, ..self }
    }

    /// The export of the vault to the path in the path buffer checked: a
    /// notification where the path is empty, the vault is empty, or there is
    /// no document of the vault; else the state as it is.
    pub open spec fn export_entries(self, now: Moment) -> Session {
        if self.path_input.len() == 0 {
            self.fail(AuthError::NoFilenameError, now)
        } else if self.entries.len() == 0 {
            self.fail(AuthError::EmptyExportError, now)
        } else if self.document() is None {
            self.fail(AuthError::SerializeError, now)
        } else {
            self
        }
    }

    /// Whether an export of this state hands the document to the host.
    pub open spec fn can_export(self) -> bool {
        self.path_input.len() > 0 && self.entries.len() > 0 && self.document() is Some
    }

    /// An import or an export begun: through the file browser where the
    /// session uses one, else by asking for a typed path. The path buffer is
    /// empty either way.
    pub open spec fn start_file_operation(self, mode: InputMode) -> Session {
        if self.use_file_browser {
            Session {
                path_input: Seq::empty(),
                file_operation: Some(mode),
                input_mode: InputMode::FileBrowser,
                ..self
            }
        } else {
            self.start_file_mode(mode)
        }
    }

    /// The file browser left without an operation: the path buffer cleared,
    /// the mode back to normal.
    pub open spec fn reset_file_browser_mode(self) -> Session {
        Session {
            input_mode: InputMode::Normal,
            file_operation: None,
            path_input: Seq::empty(),
            ..self
        }
    }

    /// The operation that the file browser was opened for run on the path in
    /// the path buffer, and the browser left: an export is checked, an import
    /// is left to the host. Nothing happens where no operation is pending.
    pub open spec fn process_file_browser_selection(self, now: Moment) -> Session {
        match self.file_operation {
            Some(operation) => {
                let ran = if operation == InputMode::Exporting {
                    self.export_entries(now)
                } else {
                    self
                };
                Session { input_mode: InputMode::Normal, file_operation: None, ..ran }
            },
            None => self,
        }
    }

    /// The path that `s` in the file browser exports to: the one in the path
    /// buffer, or the current directory where the buffer is empty.
    pub open spec fn browser_export_path(self) -> Seq<char> {
        if self.path_input.len() == 0 {
            self.browser.current_dir
        } else {
            self.path_input
        }
    }

    /// The state after `s` in the file browser: a pending export goes to the
    /// path in the path buffer, or into the current directory where the
    /// buffer is empty. Nothing happens while an import is pending.
    pub open spec fn browser_save(self, now: Moment) -> Session {
        if self.file_operation == Some(InputMode::Exporting) {
            Session {
                path_input: self.browser_export_path(),
                ..self
            }.process_file_browser_selection(now)
        } else {
            self
        }
    }

    /// The state after Enter in the file browser: a directory is entered; a
    /// file fills the path buffer and, where an import is pending, is
    /// imported at once.
    pub open spec fn browser_enter(self, now: Moment) -> Session {
        if self.browser.entries.len() == 0 {
            self
        } else if self.browser.entries[self.browser.selected].2 {
            Session { browser: self.browser.enter(), ..self }
        } else {
            let picked = Session {
                path_input: self.browser.entries[self.browser.selected].1,
                ..self
            };
            if self.file_operation == Some(InputMode::Importing) {
                picked.process_file_browser_selection(now)
            } else {
                picked
            }
        }
    }

    /// The state after the key `code` in the file browser.
    pub open spec fn on_browser_key(self, code: KeyCode, now: Moment) -> Session {
        match code {
            KeyCode::Char(c) => if c == 'q' {
                self.reset_file_browser_mode()
            } else if c == 'k' {
                Session { browser: self.browser.move_up(), ..self }
            } else if c == 'j' {
                Session { browser: self.browser.move_down(), ..self }
            } else if c == '.' {
                Session {
                    browser: Browser { show_hidden: !self.browser.show_hidden, ..self.browser },
                    ..self
                }
            } else if c == 's' {
                self.browser_save(now)
            } else {
                self
            },
            KeyCode::Esc => self.reset_file_browser_mode(),
            KeyCode::Up => Session { browser: self.browser.move_up(), ..self },
            KeyCode::Down => Session { browser: self.browser.move_down(), ..self },
            KeyCode::Enter => self.browser_enter(now),
            _ => self,
        }
    }

    /// What running the pending operation of the file browser asks of the
    /// host.
    pub open spec fn selection_asks(self) -> Asked {
        match self.file_operation {
            Some(InputMode::Importing) => if self.path_input.len() > 0 {
                Asked::Import(self.path_input)
            } else {
                Asked::Nothing
            },
            Some(InputMode::Exporting) => if self.can_export() {
                Asked::Export(self.path_input)
            } else {
                Asked::Nothing
            },
            _ => Asked::Nothing,
        }
    }

    /// What the key `code` in the file browser asks of the host.
    pub open spec fn browser_asks(self, code: KeyCode) -> Asked {
        match code {
            KeyCode::Char(c) => if c == '.' {
                Asked::List(self.browser.current_dir)
            } else if c == 's' && self.file_operation == Some(InputMode::Exporting) {
                (Session { path_input: self.browser_export_path(), ..self }).selection_asks()
            } else {
                Asked::Nothing
            },
            KeyCode::Enter => if self.browser.entries.len() == 0 {
                Asked::Nothing
            } else if self.browser.entries[self.browser.selected].2 {
                Asked::List(self.browser.entries[self.browser.selected].1)
            } else if self.file_operation == Some(InputMode::Importing) {
                (Session {
                    path_input: self.browser.entries[self.browser.selected].1,
                    ..self
                }).selection_asks()
            } else {
                Asked::Nothing
            },
            _ => Asked::Nothing,
        }
    }

    /// The state after the key `code` in normal mode.
    pub open spec fn on_normal_key(self, code: KeyCode, saved: bool, now: Moment) -> Session {
        match code {
            KeyCode::Char(c) => if c == 'q' {
                self.quit()
            } else if c == 'j' {
                self.next_entry()
            } else if c == 'k' {
                self.previous_entry()
            } else if c == 'E' {
                self.start_editing()
            } else if c == 'a' {
                self.start_adding()
            } else if c == 'D' {
                self.delete_all_entries(saved, now)
            } else if c == 'd' {
                self.delete_entry(saved, now)
            } else if c == 'i' {
                self.start_file_operation(InputMode::Importing)
            } else if c == 'e' {
                self.start_file_operation(InputMode::Exporting)
            } else {
                self
            },
            KeyCode::Down => self.next_entry(),
            KeyCode::Up => self.previous_entry(),
            _ => self,
        }
    }

    /// The state after Enter while adding or editing: on the name, the
    /// secret becomes the active field; on the secret, the entry is added or
    /// replaced and the mode is left, whether or not the entry was accepted.
    pub open spec fn process_entry_input(self, saved: bool, now: Moment) -> Session {
        if self.input_field == InputField::Name {
            Session { input_field: InputField::Secret, ..self }
        } else if self.input_mode == InputMode::Adding {
            self.add_entry(saved, now).reset_entry_state()
        } else {
            self.edit_entry(saved, now).reset_entry_state()
        }
    }

    /// The state after the key `code` while adding or editing.
    pub open spec fn on_entry_key(self, code: KeyCode, saved: bool, now: Moment) -> Session {
        match code {
            KeyCode::Esc => self.reset_entry_state(),
            KeyCode::Enter => self.process_entry_input(saved, now),
            KeyCode::Char(c) => self.with_current_field(self.current_field().push(c)),
            KeyCode::Backspace => self.with_current_field(without_last(self.current_field())),
            KeyCode::Tab => self.toggle_field(),
            _ => self,
        }
    }

    /// The state after Enter while a path is asked for: the export checked,
    /// or the import left to the host, and the mode left either way.
    pub open spec fn process_file_mode_input(self, now: Moment) -> Session {
        if self.input_mode == InputMode::Exporting {
            self.export_entries(now).reset_file_mode()
        } else {
            self.reset_file_mode()
        }
    }

    /// The state after the key `code` while a path is asked for.
    pub open spec fn on_file_key(self, code: KeyCode, now: Moment) -> Session {
        match code {
            KeyCode::Esc => self.reset_file_mode(),
            KeyCode::Enter => self.process_file_mode_input(now),
            KeyCode::Char(c) => Session { path_input: self.path_input.push(c), ..self },
            KeyCode::Backspace => Session { path_input: without_last(self.path_input), ..self },
            _ => self,
        }
    }

    /// The state after a key event. `saved` tells how the save ended that the
    /// key may have set off. Only presses count; the request to quit is
    /// looked for before the mode is.
    pub open spec fn on_key(self, key: KeyEvent, saved: bool, now: Moment) -> Session {
        if !key.press {
            self
        } else if Session::is_control_quit(key) {
            self.quit()
        } else {
            match self.input_mode {
                InputMode::Normal => self.on_normal_key(key.code, saved, now),
                InputMode::Adding | InputMode::Editing => self.on_entry_key(key.code, saved, now),
                InputMode::Importing | InputMode::Exporting => self.on_file_key(key.code, now),
                InputMode::FileBrowser => self.on_browser_key(key.code, now),
            }
        }
    }

    /// What a key event asks of the host.
    pub open spec fn asks(self, key: KeyEvent) -> Asked {
        if !key.press || Session::is_control_quit(key) {
            Asked::Nothing
        } else {
            match (self.input_mode, key.code) {
                (InputMode::FileBrowser, code) => self.browser_asks(code),
                (InputMode::Normal, KeyCode::Char(c)) => if (c == 'd' || c == 'D')
                    && self.entries.len() > 0 {
                    Asked::Save
                } else if (c == 'i' || c == 'e') && self.use_file_browser {
                    Asked::OpenBrowser
                } else {
                    Asked::Nothing
                },
                (InputMode::Normal, KeyCode::Enter) => if self.entries.len() > 0 {
                    Asked::Copy
                } else {
                    Asked::Nothing
                },
                (InputMode::Adding, KeyCode::Enter) => if self.input_field == InputField::Secret
                    && self.can_add() {
                    Asked::Save
                } else {
                    Asked::Nothing
                },
                (InputMode::Editing, KeyCode::Enter) => if self.input_field == InputField::Secret
                    && self.can_edit() {
                    Asked::Save
                } else {
                    Asked::Nothing
                },
                (InputMode::Importing, KeyCode::Enter) => if self.path_input.len() > 0 {
                    Asked::Import(self.path_input)
                } else {
                    Asked::Nothing
                },
                (InputMode::Exporting, KeyCode::Enter) => if self.can_export() {
                    Asked::Export(self.path_input)
                } else {
                    Asked::Nothing
                },
                _ => Asked::Nothing,
            }
        }
    }

    /// Whether `action` is what `asked` stands for, on the way from the
    /// state `self` to the state `next` at `now`.
    ///
    /// A save is answered by the sealed vault of the next state, or by
    /// nothing where the vault has no document to seal. Every other request
    /// has one answer.
    pub open spec fn answered(
        self,
        asked: Asked,
        action: Action,
        next: Session,
        now: Moment,
    ) -> bool {
        match asked {
            Asked::Nothing => action is Idle,
            Asked::Save => is_save_of(action, next) && (action is WriteVault) == (
            next.document() is Some),
            Asked::Copy => action matches Action::CopyCode(code) && self.code_to_copy(now) == Some(
                code@,
            ),
            Asked::Import(typed) => action matches Action::ReadImport(path) && path@ == typed,
            Asked::Export(typed) => action matches Action::WriteExport { path, contents } && path@
                == typed && self.document() == Some(contents@),
            Asked::OpenBrowser => action is OpenBrowser,
            Asked::List(dir) => action matches Action::ListDirectory(path) && path@ == dir,
        }
    }

    /// The state after a mouse event: in normal mode, moving the pointer over
    /// the row of an entry selects that entry. The first entry is shown in
    /// row 1.
    pub open spec fn on_mouse(self, event: MouseEvent) -> Session {
        if self.input_mode == InputMode::Normal && event.kind == MouseEventKind::Moved && 1
            <= event.row <= self.entries.len() {
            Session { selected: event.row - 1, ..self }
        } else {
            self
        }
    }

    /// What a mouse event asks of the host: in normal mode, a click copies
    /// the code of the selected entry.
    pub open spec fn mouse_asks(self, event: MouseEvent) -> Asked {
        if self.input_mode == InputMode::Normal && event.kind == MouseEventKind::Down
            && self.entries.len() > 0 {
            Asked::Copy
        } else {
            Asked::Nothing
        }
    }

    /// The state after an input event.
    pub open spec fn on_event(self, event: Event, saved: bool, now: Moment) -> Session {
        match event {
            Event::Key(key) => self.on_key(key, saved, now),
            Event::Mouse(mouse) => self.on_mouse(mouse),
            Event::Other => self,
        }
    }

    /// What an input event asks of the host.
    pub open spec fn event_asks(self, event: Event) -> Asked {
        match event {
            Event::Key(key) => self.asks(key),
            Event::Mouse(mouse) => self.mouse_asks(mouse),
            Event::Other => Asked::Nothing,
        }
    }

    /// The state after loading the vault file: the entries replaced by those
    /// of the file, nothing changed where there is no file, and the error of
    /// the stage that failed raised as a notification where loading fails. A
    /// failed load leaves the entries as they were. A selection that the new
    /// entries leave pointing behind the last of them goes back to 0.
    pub open spec fn load_entries(self, file: VaultFile, now: Moment) -> Session {
        match loaded_entries(self.key, file) {
            Ok(Some(entries)) => Session {
                entries,
                selected: if self.selected < entries.len() {
                    self.selected
                } else {
                    0
                },
                ..self
            },
            Ok(None) => self,
            Err(e) => self.fail(e, now),
        }
    }

    /// This state with the notification of `fault`, if there is one.
    pub open spec fn fail_if(self, fault: Option<AuthError>, now: Moment) -> Session {
        match fault {
            Some(e) => self.fail(e, now),
            None => self,
        }
    }

    /// The state after an import.
    ///
    /// A path with a fault is refused: the entries stay as they are, the
    /// fault is raised as a notification, and nothing is saved. A path
    /// without one is imported: a failure to read the file or its document
    /// is raised as a notification, the entries that the file contributes
    /// are appended, none being left out as a duplicate, and the save that
    /// follows ended.
    pub open spec fn import_entries(self, found: ImportFile, saved: bool, now: Moment) -> Session {
        match import_path_fault(found) {
            Some(fault) => self.fail(fault, now),
            None => (Session {
                entries: self.entries + imported_entries(found),
                ..self.fail_if(import_failure(found), now)
            }).saved(saved, now),
        }
    }
}

/// What a step asks of the host.
pub enum Asked {
    /// Nothing.
    Nothing,
    /// To write the sealed vault.
    Save,
    /// To copy the code of the selected entry.
    Copy,
    /// To read the import file at this typed path.
    Import(Seq<char>),
    /// To write the document to this typed path.
    Export(Seq<char>),
    /// To open the file browser in its starting directory.
    OpenBrowser,
    /// To list this directory for the file browser.
    List(Seq<char>),
}

/// Whether `action` asks for nothing, or asks to write a sealed copy of the
/// vault of `state`.
pub open spec fn is_save_of(action: Action, state: Session) -> bool {
    match action {
        Action::Idle => true,
        Action::WriteVault(bytes) => state.sealed_as(bytes@),
        _ => false,
    }
}

/// `text` without its last character; an empty text as it is.
pub open spec fn without_last(text: Seq<char>) -> Seq<char> {
    if text.len() == 0 {
        text
    } else {
        text.drop_last()
    }
}

impl App {
    /// A session on an empty vault that is stored at `entries_path` and
    /// sealed for the identity of `crypto`.
    pub fn new(entries_path: String, crypto: Crypto) -> (app: App)
        ensures
            app@ == Session::initial(entries_path@, crypto@),
            app@.wf(),
    {
        let app = App {
            should_quit: false,
            entries: Vec::new(),
            selected: 0,
            input_mode: InputMode::Normal,
            new_entry_name: String::new(),
            new_entry_secret: String::new(),
            edit_entry_name: String::new(),
            edit_entry_secret: String::new(),
            input_field: InputField::Name,
            entries_path,
            copy_notification_time: None,
            path_input: String::new(),
            error_message: None,
            crypto,
            use_file_browser: false,
            file_browser: FileBrowser::new(String::new(), None, None),
            file_operation: None,
        };
        assert(app@.entries =~= Seq::empty());
        app
    }

    /// Tells whether the selection points at an entry, or at 0 where the
    /// vault is empty. Every operation keeps it so.
    pub fn selection_is_valid(&self) -> (valid: bool)
        ensures
            valid == self@.selection_valid(),
    {
        self.selected == 0 || self.selected < self.entries.len()
    }

    /// Tells whether the session is well formed: the selection is valid, and
    /// so is the cursor of the file browser. Every operation keeps it so.
    pub fn is_well_formed(&self) -> (valid: bool)
        ensures
            valid == self@.wf(),
    {
        self.selection_is_valid() && self.file_browser.cursor_is_valid()
    }

    /// Raises the notification `message` at the moment `now`. An earlier
    /// notification is replaced.
    pub fn show_error_at(&mut self, message: &str, now: Moment)
        ensures
            final(self)@ == old(self)@.notify(message@, now),
    {
        self.error_message = Some((String::from_str(message), now));
    }

    /// Raises the notification `message` at the time the clock shows, or at
    /// the epoch where the clock stands before it.
    pub fn show_error(&mut self, message: &str)
        ensures
            exists|now: Moment| final(self)@ == old(self)@.notify(message@, now),
    {
        let now = match read_clock() {
            Some(moment) => moment,
            None => Moment::from_secs(0),
        };
        self.show_error_at(message, now);
        assert(self@ == old(self)@.notify(message@, now));
    }

    /// Raises the notification of `error` at `now`.
    pub fn fail(&mut self, error: AuthError, now: Moment)
        ensures
            final(self)@ == old(self)@.fail(error, now),
    {
        let message = error.message();
        self.error_message = Some((message, now));
    }

    /// Moves the selection to the next entry; from the last entry to the
    /// first. Does nothing on an empty vault.
    pub fn next_entry(&mut self)
        requires
            old(self)@.selection_valid(),
        ensures
            final(self)@ == old(self)@.next_entry(),
            final(self)@.selection_valid(),
    {
        let len = self.entries.len();
        if len == 0 {
            return ;
        }
        proof {
            if self.selected + 1 == len {
                lemma_mod_self_0(len as int);
            } else {
                lemma_small_mod((self.selected + 1) as nat, len as nat);
            }
        }
        self.selected = if self.selected + 1 == len {
            0
        } else {
            self.selected + 1
        };
    }

    /// Moves the selection to the previous entry; from the first entry to
    /// the last. Does nothing on an empty vault.
    pub fn previous_entry(&mut self)
        requires
            old(self)@.selection_valid(),
        ensures
            final(self)@ == old(self)@.previous_entry(),
            final(self)@.selection_valid(),
    {
        let len = self.entries.len();
        if len == 0 {
            return ;
        }
        self.selected = if self.selected == 0 {
            len - 1
        } else {
            self.selected - 1
        };
    }

    /// Begins editing the selected entry. Does nothing on an empty vault.
    pub fn start_editing(&mut self)
        requires
            old(self)@.selection_valid(),
        ensures
            final(self)@ == old(self)@.start_editing(),
    {
        if self.entries.len() == 0 {
            return ;
        }
        self.edit_entry_name = self.entries[self.selected].name.clone();
        self.edit_entry_secret = self.entries[self.selected].secret.clone();
        self.input_mode = InputMode::Editing;
        self.input_field = InputField::Name;
    }

    /// Begins adding an entry.
    pub fn start_adding(&mut self)
        ensures
            final(self)@ == old(self)@.start_adding(),
    {
        self.new_entry_name = String::new();
        self.new_entry_secret = String::new();
        self.input_mode = InputMode::Adding;
        self.input_field = InputField::Name;
    }

    /// Begins asking for the path of an import or an export.
    pub fn start_file_mode(&mut self, mode: InputMode)
        ensures
            final(self)@ == old(self)@.start_file_mode(mode),
    {
        self.path_input = String::new();
        self.input_mode = mode;
    }

    /// Leaves adding or editing: the buffers of that mode are cleared.
    pub fn reset_entry_state(&mut self)
        ensures
            final(self)@ == old(self)@.reset_entry_state(),
    {
        if self.input_mode == InputMode::Adding {
            self.new_entry_name = String::new();
            self.new_entry_secret = String::new();
        } else {
            self.edit_entry_name = String::new();
            self.edit_entry_secret = String::new();
        }
        self.input_mode = InputMode::Normal;
        self.input_field = InputField::Name;
    }

    /// Leaves importing or exporting: the path buffer is cleared.
    pub fn reset_file_mode(&mut self)
        ensures
            final(self)@ == old(self)@.reset_file_mode(),
    {
        self.input_mode = InputMode::Normal;
        self.path_input = String::new();
    }

    /// Makes the other field the active one.
    pub fn handle_tab_key(&mut self)
        ensures
            final(self)@ == old(self)@.toggle_field(),
    {
        self.input_field = match self.input_field {
            InputField::Name => InputField::Secret,
            InputField::Secret => InputField::Name,
        };
    }

    /// Appends `c` to the buffer of the active field.
    pub fn update_entry_field(&mut self, c: char)
        ensures
            final(self)@ == old(self)@.with_current_field(old(self)@.current_field().push(c)),
    {
        match (self.input_mode, self.input_field) {
            (InputMode::Adding, InputField::Name) => push_char(&mut self.new_entry_name, c),
            (InputMode::Adding, InputField::Secret) => push_char(&mut self.new_entry_secret, c),
            (_, InputField::Name) => push_char(&mut self.edit_entry_name, c),
            (_, InputField::Secret) => push_char(&mut self.edit_entry_secret, c),
        }
    }

    /// Removes the last character of the buffer of the active field, if it
    /// has one.
    pub fn remove_entry_char(&mut self)
        ensures
            final(self)@ == old(self)@.with_current_field(
                without_last(old(self)@.current_field()),
            ),
    {
        match (self.input_mode, self.input_field) {
            (InputMode::Adding, InputField::Name) => { pop_char(&mut self.new_entry_name); },
            (InputMode::Adding, InputField::Secret) => { pop_char(&mut self.new_entry_secret); },
            (_, InputField::Name) => { pop_char(&mut self.edit_entry_name); },
            (_, InputField::Secret) => { pop_char(&mut self.edit_entry_secret); },
        }
    }

    /// Prepares a save: writes the vault down as a document and seals it for
    /// the session's identity. The bytes returned are what the vault file is
    /// to hold.
    ///
    /// Succeeds exactly where there is a document of the vault. Fails with
    /// `SerializeError`, raised as a notification too, where there is none.
    /// Sealing does not fail with the identity of a session; were it to, the
    /// failure would be `EncryptorError`.
    pub fn save_entries(&mut self, now: Moment) -> (sealed: AuthResult<Vec<u8>>)
        ensures
            match sealed {
                Ok(bytes) => final(self)@ == old(self)@ && old(self)@.sealed_as(bytes@),
                Err(AuthError::SerializeError) => old(self)@.document() is None && final(self)@
                    == old(self)@.fail(AuthError::SerializeError, now),
                Err(_) => false,
            },
    {
        let contents = match self.serialize_entries(now) {
            Ok(contents) => contents,
            Err(e) => { return Err(e); },
        };
        match self.crypto.encrypt(contents.as_str().as_bytes()) {
            Ok(bytes) => Ok(bytes),
            Err(_) => {
                self.fail(AuthError::EncryptorError, now);
                Err(AuthError::EncryptorError)
            },
        }
    }

    /// Writes the vault down as a document.
    ///
    /// Fails with `SerializeError`, raised as a notification too, exactly
    /// where there is no document of the vault.
    pub fn serialize_entries(&mut self, now: Moment) -> (text: AuthResult<String>)
        ensures
            match text {
                Ok(contents) => final(self)@ == old(self)@ && old(self)@.document() == Some(
                    contents@,
                ),
                Err(AuthError::SerializeError) => old(self)@.document() is None && final(self)@
                    == old(self)@.fail(AuthError::SerializeError, now),
                Err(_) => false,
            },
    {
        let entries = Entries { entries: clone_entries(&self.entries) };
        match entries.to_document() {
            Ok(contents) => Ok(contents),
            Err(_) => {
                self.fail(AuthError::SerializeError, now);
                Err(AuthError::SerializeError)
            },
        }
    }

    /// Prepares a save after a change of the vault. Where that fails, the
    /// change stays and the notification says that saving failed.
    pub fn try_save_entries(&mut self, now: Moment) -> (action: Action)
        ensures
            final(self)@ == old(self)@.saved(action is WriteVault, now),
            is_save_of(action, old(self)@),
            (action is WriteVault) == (old(self)@.document() is Some),
    {
        match self.save_entries(now) {
            Ok(bytes) => Action::WriteVault(bytes),
            Err(_) => {
                self.fail(AuthError::SaveError, now);
                Action::Idle
            },
        }
    }

    /// Notes how the write of the vault file ended: a failed write is raised
    /// as the notification that saving failed. The vault in memory stays as
    /// it is either way.
    pub fn save_finished(&mut self, written: bool, now: Moment)
        ensures
            final(self)@ == old(self)@.saved(written, now),
    {
        if !written {
            self.fail(AuthError::SaveError, now);
        }
    }

    /// Appends the entry held in the add buffers and prepares the save.
    ///
    /// Without a name or without a secret nothing is added and a
    /// notification says that empty entries are not allowed.
    pub fn add_entry(&mut self, now: Moment) -> (action: Action)
        ensures
            final(self)@ == old(self)@.add_entry(action is WriteVault, now),
            is_save_of(action, final(self)@),
            (action is WriteVault) == (old(self)@.can_add() && final(self)@.document() is Some),
            old(self)@.selection_valid() ==> final(self)@.selection_valid(),
    {
        if self.new_entry_name.as_str().is_empty() || self.new_entry_secret.as_str().is_empty() {
            self.fail(AuthError::EmptyEntryError, now);
            return Action::Idle;
        }
        let entry = Entry {
            name: self.new_entry_name.clone(),
            secret: self.new_entry_secret.clone(),
        };
        self.entries.push(entry);
        assert(self@.entries =~= old(self)@.entries.push(
            (old(self)@.new_entry_name, old(self)@.new_entry_secret),
        ));
        self.try_save_entries(now)
    }

    /// Removes the selected entry, keeps the selection on an entry, and
    /// prepares the save. Does nothing on an empty vault.
    pub fn delete_entry(&mut self, now: Moment) -> (action: Action)
        requires
            old(self)@.selection_valid(),
        ensures
            final(self)@ == old(self)@.delete_entry(action is WriteVault, now),
            is_save_of(action, final(self)@),
            (action is WriteVault) == (old(self)@.entries.len() > 0
                && final(self)@.document() is Some),
            final(self)@.selection_valid(),
    {
        if self.entries.len() == 0 {
            return Action::Idle;
        }
        self.entries.remove(self.selected);
        assert(self@.entries =~= old(self)@.entries.remove(old(self)@.selected));
        let last = if self.entries.len() == 0 {
            0
        } else {
            self.entries.len() - 1
        };
        if self.selected > last {
            self.selected = last;
        }
        self.try_save_entries(now)
    }

    /// Removes every entry, puts the selection at 0, and prepares the save.
    /// Does nothing on an empty vault.
    pub fn delete_all_entries(&mut self, now: Moment) -> (action: Action)
        ensures
            final(self)@ == old(self)@.delete_all_entries(action is WriteVault, now),
            is_save_of(action, final(self)@),
            (action is WriteVault) == (old(self)@.entries.len() > 0
                && final(self)@.document() is Some),
            old(self)@.selection_valid() ==> final(self)@.selection_valid(),
    {
        if self.entries.len() == 0 {
            return Action::Idle;
        }
        self.entries.clear();
        self.selected = 0;
        assert(self@.entries =~= Seq::empty());
        self.try_save_entries(now)
    }

    /// Replaces the selected entry by the entry held in the edit buffers and
    /// prepares the save. Does nothing on an empty vault; without a name or
    /// without a secret nothing is replaced and a notification says that
    /// empty entries are not allowed.
    pub fn edit_entry(&mut self, now: Moment) -> (action: Action)
        requires
            old(self)@.selection_valid(),
        ensures
            final(self)@ == old(self)@.edit_entry(action is WriteVault, now),
            is_save_of(action, final(self)@),
            (action is WriteVault) == (old(self)@.can_edit() && final(self)@.document() is Some),
            final(self)@.selection_valid(),
    {
        if self.entries.len() == 0 {
            return Action::Idle;
        }
        if self.edit_entry_name.as_str().is_empty() || self.edit_entry_secret.as_str().is_empty() {
            self.fail(AuthError::EmptyEntryError, now);
            return Action::Idle;
        }
        let entry = Entry {
            name: self.edit_entry_name.clone(),
            secret: self.edit_entry_secret.clone(),
        };
        self.entries.set(self.selected, entry);
        assert(self@.entries =~= old(self)@.entries.update(
            old(self)@.selected,
            (old(self)@.edit_entry_name, old(self)@.edit_entry_secret),
        ));
        self.try_save_entries(now)
    }

    /// Asks for the code of the selected entry to be copied: the code at
    /// `now`, or the invalid label where the secret gives none. Asks for
    /// nothing on an empty vault.
    pub fn copy_current_code(&self, now: Moment) -> (action: Action)
        requires
            self@.selection_valid(),
        ensures
            match action {
                Action::CopyCode(code) => self@.code_to_copy(now) == Some(code@),
                Action::Idle => self@.code_to_copy(now) is None,
                _ => false,
            },
    {
        if self.entries.len() == 0 {
            return Action::Idle;
        }
        let shown = self.entries[self.selected].generate_totp_with_time_at(now.secs);
        Action::CopyCode(shown.0)
    }

    /// Notes how the clipboard request ended: the time of the copy where it
    /// went well, a notification where it did not.
    pub fn copy_finished(&mut self, copied: bool, now: Moment)
        ensures
            final(self)@ == old(self)@.copied(copied, now),
    {
        if copied {
            self.copy_notification_time = Some(now);
        } else {
            self.fail(AuthError::ClipboardError, now);
        }
    }

    /// Checks the export of the vault to the path in the path buffer and,
    /// where it can go ahead, hands the path and the document to the host.
    ///
    /// An empty path, an empty vault and a vault without a document each end
    /// in a notification and ask for nothing.
    pub fn export_entries(&mut self, now: Moment) -> (action: Action)
        ensures
            final(self)@ == old(self)@.export_entries(now),
            match action {
                Action::WriteExport { path, contents } => old(self)@.can_export() && path@ == old(
                    self,
                )@.path_input && old(self)@.document() == Some(contents@),
                Action::Idle => !old(self)@.can_export(),
                _ => false,
            },
    {
        if self.path_input.as_str().is_empty() {
            self.fail(AuthError::NoFilenameError, now);
            return Action::Idle;
        }
        if self.entries.len() == 0 {
            self.fail(AuthError::EmptyExportError, now);
            return Action::Idle;
        }
        match self.serialize_entries(now) {
            Ok(contents) => Action::WriteExport { path: self.path_input.clone(), contents },
            Err(_) => Action::Idle,
        }
    }

    /// Notes how the write of the export file ended: a failed write is raised
    /// as a notification.
    pub fn export_finished(&mut self, written: bool, now: Moment)
        ensures
            final(self)@ == if written {
                old(self)@
            } else {
                old(self)@.fail(AuthError::WriteError, now)
            },
    {
        if !written {
            self.fail(AuthError::WriteError, now);
        }
    }

    /// Notes the request to quit where `key` is `q` or `c` with the control
    /// key held, and tells whether it was.
    pub fn check_control_quit(&mut self, key: KeyEvent) -> (quit: bool)
        ensures
            quit == Session::is_control_quit(key),
            final(self)@ == if quit {
                old(self)@.quit()
            } else {
                old(self)@
            },
    {
        let asked = key.control && match key.code {
            KeyCode::Char(c) => c == 'q' || c == 'c',
            _ => false,
        };
        if asked {
            self.should_quit = true;
        }
        asked
    }

    /// Handles a key in normal mode.
    fn handle_normal_mode(&mut self, key: KeyEvent, now: Moment) -> (action: Action)
        requires
            old(self)@.selection_valid(),
            old(self)@.input_mode == InputMode::Normal,
            key.press,
            !Session::is_control_quit(key),
        ensures
            final(self)@ == old(self)@.on_normal_key(key.code, action is WriteVault, now),
            old(self)@.answered(old(self)@.asks(key), action, final(self)@, now),
            final(self)@.selection_valid(),
    {
        match key.code {
            KeyCode::Char(c) => {
                if c == 'q' {
                    self.should_quit = true;
                    Action::Idle
                } else if c == 'j' {
                    self.next_entry();
                    Action::Idle
                } else if c == 'k' {
                    self.previous_entry();
                    Action::Idle
                } else if c == 'E' {
                    self.start_editing();
                    Action::Idle
                } else if c == 'a' {
                    self.start_adding();
                    Action::Idle
                } else if c == 'D' {
                    self.delete_all_entries(now)
                } else if c == 'd' {
                    self.delete_entry(now)
                } else if c == 'i' {
                    self.start_file_operation(InputMode::Importing)
                } else if c == 'e' {
                    self.start_file_operation(InputMode::Exporting)
                } else {
                    Action::Idle
                }
            },
            KeyCode::Down => {
                self.next_entry();
                Action::Idle
            },
            KeyCode::Up => {
                self.previous_entry();
                Action::Idle
            },
            KeyCode::Enter => self.copy_current_code(now),
            _ => Action::Idle,
        }
    }

    /// Handles Enter while adding or editing.
    fn process_entry_input(&mut self, now: Moment) -> (action: Action)
        requires
            old(self)@.selection_valid(),
            old(self)@.input_mode == InputMode::Adding || old(self)@.input_mode
                == InputMode::Editing,
        ensures
            final(self)@ == old(self)@.process_entry_input(action is WriteVault, now),
            is_save_of(action, final(self)@),
            (action is WriteVault) == (final(self)@.document() is Some && old(self)@.input_field
                == InputField::Secret && if old(self)@.input_mode == InputMode::Adding {
                old(self)@.can_add()
            } else {
                old(self)@.can_edit()
            }),
            final(self)@.selection_valid(),
    {
        if self.is_name_field() {
            self.switch_to_secret_field();
            return Action::Idle;
        }
        self.handle_final_entry_input(now)
    }

    /// Tells whether the name is the active field.
    pub fn is_name_field(&self) -> (on_name: bool)
        ensures
            on_name == (self@.input_field == InputField::Name),
    {
        self.input_field == InputField::Name
    }

    /// Makes the secret the active field.
    pub fn switch_to_secret_field(&mut self)
        ensures
            final(self)@ == (Session { input_field: InputField::Secret, ..old(self)@ }),
    {
        self.input_field = InputField::Secret;
    }

    /// Commits the entry being added or edited and leaves the mode, whether
    /// or not the entry was accepted.
    fn handle_final_entry_input(&mut self, now: Moment) -> (action: Action)
        requires
            old(self)@.selection_valid(),
            old(self)@.input_mode == InputMode::Adding || old(self)@.input_mode
                == InputMode::Editing,
        ensures
            final(self)@ == if old(self)@.input_mode == InputMode::Adding {
                old(self)@.add_entry(action is WriteVault, now).reset_entry_state()
            } else {
                old(self)@.edit_entry(action is WriteVault, now).reset_entry_state()
            },
            is_save_of(action, final(self)@),
            (action is WriteVault) == (final(self)@.document() is Some && if old(
                self,
            )@.input_mode == InputMode::Adding {
                old(self)@.can_add()
            } else {
                old(self)@.can_edit()
            }),
            final(self)@.selection_valid(),
    {
        let action = if self.input_mode == InputMode::Adding {
            self.add_entry(now)
        } else {
            self.edit_entry(now)
        };
        self.reset_entry_state();
        action
    }

    /// Handles a key while adding or editing.
    fn handle_entry_mode(&mut self, key: KeyEvent, now: Moment) -> (action: Action)
        requires
            old(self)@.selection_valid(),
            old(self)@.input_mode == InputMode::Adding || old(self)@.input_mode
                == InputMode::Editing,
            key.press,
            !Session::is_control_quit(key),
        ensures
            final(self)@ == old(self)@.on_entry_key(key.code, action is WriteVault, now),
            old(self)@.answered(old(self)@.asks(key), action, final(self)@, now),
            final(self)@.selection_valid(),
    {
        match key.code {
            KeyCode::Esc => {
                self.reset_entry_state();
                Action::Idle
            },
            KeyCode::Enter => self.process_entry_input(now),
            KeyCode::Char(c) => {
                self.update_entry_field(c);
                Action::Idle
            },
            KeyCode::Backspace => {
                self.remove_entry_char();
                Action::Idle
            },
            KeyCode::Tab => {
                self.handle_tab_key();
                Action::Idle
            },
            _ => Action::Idle,
        }
    }

    /// Runs the import or the export that the path buffer was filled for.
    /// An import with an empty path asks for nothing.
    fn handle_file_operation(&mut self, now: Moment) -> (action: Action)
        requires
            old(self)@.input_mode == InputMode::Importing || old(self)@.input_mode
                == InputMode::Exporting,
        ensures
            final(self)@ == if old(self)@.input_mode == InputMode::Exporting {
                old(self)@.export_entries(now)
            } else {
                old(self)@
            },
            old(self)@.answered(
                old(self)@.asks(KeyEvent::plain(KeyCode::Enter)),
                action,
                final(self)@,
                now,
            ),
    {
        if self.input_mode == InputMode::Exporting {
            self.export_entries(now)
        } else if self.path_input.as_str().is_empty() {
            Action::Idle
        } else {
            Action::ReadImport(self.path_input.clone())
        }
    }

    /// Handles Enter while a path is asked for: runs the operation, then
    /// clears the path buffer and returns to normal mode in every case.
    fn process_file_mode_input(&mut self, now: Moment) -> (action: Action)
        requires
            old(self)@.input_mode == InputMode::Importing || old(self)@.input_mode
                == InputMode::Exporting,
        ensures
            final(self)@ == old(self)@.process_file_mode_input(now),
            old(self)@.answered(
                old(self)@.asks(KeyEvent::plain(KeyCode::Enter)),
                action,
                final(self)@,
                now,
            ),
    {
        let action = self.handle_file_operation(now);
        self.reset_file_mode();
        action
    }

    /// Handles a key while a path is asked for.
    fn handle_file_mode(&mut self, key: KeyEvent, now: Moment) -> (action: Action)
        requires
            old(self)@.input_mode == InputMode::Importing || old(self)@.input_mode
                == InputMode::Exporting,
            key.press,
            !Session::is_control_quit(key),
        ensures
            final(self)@ == old(self)@.on_file_key(key.code, now),
            old(self)@.answered(old(self)@.asks(key), action, final(self)@, now),
    {
        match key.code {
            KeyCode::Esc => {
                self.reset_file_mode();
                Action::Idle
            },
            KeyCode::Enter => self.process_file_mode_input(now),
            KeyCode::Char(c) => {
                push_char(&mut self.path_input, c);
                Action::Idle
            },
            KeyCode::Backspace => {
                pop_char(&mut self.path_input);
                Action::Idle
            },
            _ => Action::Idle,
        }
    }

    /// Handles a key event at the moment `now`: the next state, and what the
    /// host is to do.
    ///
    /// Only presses count. `q` or `c` with the control key held asks to quit
    /// in every mode; any other key goes to the handler of the mode.
    pub fn handle_key_event(&mut self, key: KeyEvent, now: Moment) -> (action: Action)
        requires
            old(self)@.wf(),
        ensures
            final(self)@ == old(self)@.on_key(key, action is WriteVault, now),
            old(self)@.answered(old(self)@.asks(key), action, final(self)@, now),
            final(self)@.wf(),
    {
        if !key.press {
            return Action::Idle;
        }
        if self.check_control_quit(key) {
            return Action::Idle;
        }
        match self.input_mode {
            InputMode::Normal => self.handle_normal_mode(key, now),
            InputMode::Adding | InputMode::Editing => self.handle_entry_mode(key, now),
            InputMode::Importing | InputMode::Exporting => self.handle_file_mode(key, now),
            InputMode::FileBrowser => self.handle_file_browser_mode(key, now),
        }
    }

    /// Handles an input event at the moment `now`: the next state, and what
    /// the host is to do.
    pub fn handle_events_at(&mut self, event: &Event, now: Moment) -> (action: Action)
        requires
            old(self)@.wf(),
        ensures
            final(self)@ == old(self)@.on_event(*event, action is WriteVault, now),
            old(self)@.answered(old(self)@.event_asks(*event), action, final(self)@, now),
            final(self)@.wf(),
    {
        match event {
            Event::Key(key) => self.handle_key_event(*key, now),
            Event::Mouse(mouse) => handle_mouse_event(self, *mouse, now),
            Event::Other => Action::Idle,
        }
    }

    /// Handles an input event at the time the clock shows, or at the epoch
    /// where the clock stands before it.
    pub fn handle_events(&mut self, event: &Event) -> (action: Action)
        requires
            old(self)@.wf(),
        ensures
            exists|now: Moment|
                final(self)@ == old(self)@.on_event(*event, action is WriteVault, now) && old(
                    self,
                )@.answered(old(self)@.event_asks(*event), action, final(self)@, now),
            final(self)@.wf(),
    {
        let now = match read_clock() {
            Some(moment) => moment,
            None => Moment::from_secs(0),
        };
        let action = self.handle_events_at(event, now);
        assert(self@ == old(self)@.on_event(*event, action is WriteVault, now) && old(
            self,
        )@.answered(old(self)@.event_asks(*event), action, self@, now));
        action
    }

    /// Loads the vault from what the host found where it is stored.
    ///
    /// No file is no error: the vault stays as it is. Otherwise the bytes are
    /// opened with the session's identity, decoded as UTF-8 and read as a
    /// document, and the entries of the document replace those in memory; a
    /// selection that then points behind the last entry goes back to 0.
    /// Each stage fails with an error of its own (`ReadError`,
    /// `DecryptError`, `Utf8Error`, `ParseError`), which is raised as a
    /// notification too, and a failure leaves the entries as they were.
    pub fn load_entries(&mut self, file: VaultFile, now: Moment) -> (outcome: AuthResult<()>)
        ensures
            final(self)@ == old(self)@.load_entries(file, now),
            match outcome {
                Ok(_) => loaded_entries(old(self)@.key, file) is Ok,
                Err(e) => loaded_entries(old(self)@.key, file) == Err::<
                    Option<Seq<EntryText>>,
                    AuthError,
                >(e),
            },
            old(self)@.selection_valid() ==> final(self)@.selection_valid(),
    {
        let encrypted = match file {
            VaultFile::Missing => { return Ok(()); },
            VaultFile::Unreadable => {
                self.fail(AuthError::ReadError, now);
                return Err(AuthError::ReadError);
            },
            VaultFile::Contents(bytes) => bytes,
        };
        let decrypted = match self.crypto.decrypt(encrypted.as_slice()) {
            Ok(plain) => plain,
            Err(_) => {
                self.fail(AuthError::DecryptError, now);
                return Err(AuthError::DecryptError);
            },
        };
        let contents = match string_from_utf8(decrypted) {
            Some(text) => text,
            None => {
                self.fail(AuthError::Utf8Error, now);
                return Err(AuthError::Utf8Error);
            },
        };
        match Entries::from_document(contents.as_str()) {
            Ok(document) => {
                self.entries = document.entries;
                if self.selected >= self.entries.len() {
                    self.selected = 0;
                }
                Ok(())
            },
            Err(_) => {
                self.fail(AuthError::ParseError, now);
                Err(AuthError::ParseError)
            },
        }
    }

    /// Loads the vault at startup. A failure is no reason to stop: it leaves
    /// the vault as it was and shows as the notification of the stage that
    /// failed.
    pub fn try_load_entries(app: &mut App, file: VaultFile, now: Moment)
        ensures
            final(app)@ == old(app)@.load_entries(file, now),
            old(app)@.selection_valid() ==> final(app)@.selection_valid(),
    {
        let _ = app.load_entries(file, now);
    }

    /// Checks what the host found at the path of an import, raises what is
    /// wrong with it as a notification (nothing is there, a directory is
    /// there, or the extension is not `toml`), and tells whether the path is
    /// accepted.
    pub fn validate_import_path(&mut self, found: &ImportFile, now: Moment) -> (accepted: bool)
        ensures
            final(self)@ == old(self)@.fail_if(import_path_fault(*found), now),
            accepted == (import_path_fault(*found) is None),
    {
        if !found.exists {
            self.fail(AuthError::FileNotExistError, now);
            return false;
        }
        if found.is_dir {
            self.fail(AuthError::DirectoryError, now);
            return false;
        }
        let is_toml = match &found.extension {
            Some(extension) => *extension == String::from_str(TOML_EXT),
            None => false,
        };
        if !is_toml {
            self.fail(AuthError::TomlExtError, now);
        }
        is_toml
    }

    /// Reads the entries of an import file. A file that is not there, cannot
    /// be read, or holds no document contributes no entries, and the reason
    /// is raised as a notification; an empty file contributes none silently.
    pub fn read_and_parse_entries(&mut self, found: &ImportFile, now: Moment) -> (parsed: Entries)
        ensures
            final(self)@ == old(self)@.fail_if(import_failure(*found), now),
            parsed@ == imported_entries(*found),
    {
        if !found.exists {
            self.fail(AuthError::FileNotExistError, now);
            return Entries { entries: Vec::new() };
        }
        let parsed = match &found.contents {
            None => {
                self.fail(AuthError::ReadError, now);
                Entries { entries: Vec::new() }
            },
            Some(text) => {
                if text.as_str().is_empty() {
                    Entries { entries: Vec::new() }
                } else {
                    match Entries::from_document(text.as_str()) {
                        Ok(document) => document,
                        Err(_) => {
                            self.fail(AuthError::ParseError, now);
                            Entries { entries: Vec::new() }
                        },
                    }
                }
            },
        };
        assert(parsed@ =~= imported_entries(*found));
        parsed
    }

    /// Appends imported entries to the vault and prepares the save.
    pub fn merge_and_save_entries(&mut self, imported: Entries, now: Moment) -> (action: Action)
        ensures
            final(self)@ == (Session {
                entries: old(self)@.entries + imported@,
                ..old(self)@
            }).saved(action is WriteVault, now),
            is_save_of(action, final(self)@),
            (action is WriteVault) == (final(self)@.document() is Some),
    {
        let mut incoming = imported.entries;
        self.entries.append(&mut incoming);
        assert(self@.entries =~= old(self)@.entries + imported@);
        self.try_save_entries(now)
    }

    /// Imports what the host found at the path of an import.
    ///
    /// The path is checked first. Where nothing is there, a directory is
    /// there, or the extension is not `toml`, the import is refused: the
    /// vault stays as it is, the fault is raised as a notification, and
    /// nothing is handed out to save. Otherwise the entries of the file are
    /// appended and the save is prepared; a file that cannot be read, or
    /// holds no document, contributes no entries and still ends in a save.
    pub fn import_entries(&mut self, found: &ImportFile, now: Moment) -> (action: Action)
        ensures
            final(self)@ == old(self)@.import_entries(*found, action is WriteVault, now),
            is_save_of(action, final(self)@),
            (action is WriteVault) == (import_path_fault(*found) is None
                && final(self)@.document() is Some),
            old(self)@.selection_valid() ==> final(self)@.selection_valid(),
    {
        if !self.validate_import_path(found, now) {
            return Action::Idle;
        }
        let imported = self.read_and_parse_entries(found, now);
        self.merge_and_save_entries(imported, now)
    }

    /// Takes the typed path of an import or an export apart into what it
    /// stands for: itself, the home directory, something under the home
    /// directory, or something under the value of an environment variable.
    /// The host, which knows the home directory and the environment, makes
    /// the real path of it.
    pub fn expand_path(path: &str) -> (plan: PathPlan)
        ensures
            is_plan_of(plan, path@),
    {
        expand(path)
    }

    /// Begins an import or an export: opens the file browser where the
    /// session uses one, else asks for a typed path.
    pub fn start_file_operation(&mut self, mode: InputMode) -> (action: Action)
        ensures
            final(self)@ == old(self)@.start_file_operation(mode),
            match action {
                Action::OpenBrowser => old(self)@.use_file_browser,
                Action::Idle => !old(self)@.use_file_browser,
                _ => false,
            },
    {
        if self.use_file_browser {
            self.file_operation = Some(mode);
            self.path_input = String::new();
            self.input_mode = InputMode::FileBrowser;
            Action::OpenBrowser
        } else {
            self.start_file_mode(mode);
            Action::Idle
        }
    }

    /// Leaves the file browser without running an operation.
    pub fn reset_file_browser_mode(&mut self)
        ensures
            final(self)@ == old(self)@.reset_file_browser_mode(),
    {
        self.input_mode = InputMode::Normal;
        self.file_operation = None;
        self.path_input = String::new();
    }

    /// Runs the operation that the file browser was opened for on the path in
    /// the path buffer, and leaves the browser.
    pub fn process_file_browser_selection(&mut self, now: Moment) -> (action: Action)
        ensures
            final(self)@ == old(self)@.process_file_browser_selection(now),
            old(self)@.answered(old(self)@.selection_asks(), action, final(self)@, now),
    {
        let operation = match self.file_operation {
            Some(operation) => operation,
            None => { return Action::Idle; },
        };
        self.input_mode = operation;
        let action = match operation {
            InputMode::Importing => {
                if self.path_input.as_str().is_empty() {
                    Action::Idle
                } else {
                    Action::ReadImport(self.path_input.clone())
                }
            },
            InputMode::Exporting => self.export_entries(now),
            _ => Action::Idle,
        };
        self.input_mode = InputMode::Normal;
        self.file_operation = None;
        action
    }

    /// Handles a key in the file browser.
    fn handle_file_browser_mode(&mut self, key: KeyEvent, now: Moment) -> (action: Action)
        requires
            old(self)@.browser.valid(),
            old(self)@.input_mode == InputMode::FileBrowser,
            key.press,
            !Session::is_control_quit(key),
        ensures
            final(self)@ == old(self)@.on_browser_key(key.code, now),
            old(self)@.answered(old(self)@.asks(key), action, final(self)@, now),
            final(self)@.browser.valid(),
    {
        match key.code {
            KeyCode::Char(c) => {
                if c == 'q' {
                    self.reset_file_browser_mode();
                    Action::Idle
                } else if c == 'k' {
                    self.file_browser.move_up();
                    Action::Idle
                } else if c == 'j' {
                    self.file_browser.move_down();
                    Action::Idle
                } else if c == '.' {
                    self.file_browser.toggle_hidden_files();
                    Action::ListDirectory(self.file_browser.current_dir.clone())
                } else if c == 's' {
                    self.handle_browser_save(now)
                } else {
                    Action::Idle
                }
            },
            KeyCode::Esc => {
                self.reset_file_browser_mode();
                Action::Idle
            },
            KeyCode::Up => {
                self.file_browser.move_up();
                Action::Idle
            },
            KeyCode::Down => {
                self.file_browser.move_down();
                Action::Idle
            },
            KeyCode::Enter => self.handle_browser_enter(now),
            _ => Action::Idle,
        }
    }

    /// Handles `s` in the file browser: a pending export goes to the path in
    /// the path buffer, or into the current directory where the buffer is
    /// empty.
    fn handle_browser_save(&mut self, now: Moment) -> (action: Action)
        ensures
            final(self)@ == old(self)@.browser_save(now),
            old(self)@.answered(
                old(self)@.browser_asks(KeyCode::Char('s')),
                action,
                final(self)@,
                now,
            ),
    {
        let exporting = match self.file_operation {
            Some(InputMode::Exporting) => true,
            _ => false,
        };
        if !exporting {
            return Action::Idle;
        }
        if self.path_input.as_str().is_empty() {
            self.path_input = self.file_browser.current_dir.clone();
        }
        self.process_file_browser_selection(now)
    }

    /// Handles Enter in the file browser: a directory is entered and is to be
    /// listed; a file fills the path buffer and, where an import is pending,
    /// is imported at once.
    fn handle_browser_enter(&mut self, now: Moment) -> (action: Action)
        requires
            old(self)@.browser.valid(),
        ensures
            final(self)@ == old(self)@.browser_enter(now),
            old(self)@.answered(
                old(self)@.browser_asks(KeyCode::Enter),
                action,
                final(self)@,
                now,
            ),
            final(self)@.browser == old(self)@.browser.enter(),
    {
        match self.file_browser.enter() {
            Entered::Nothing => Action::Idle,
            Entered::Directory(path) => Action::ListDirectory(path),
            Entered::File(path) => {
                self.path_input = path;
                let importing = match self.file_operation {
                    Some(InputMode::Importing) => true,
                    _ => false,
                };
                if importing {
                    self.process_file_browser_selection(now)
                } else {
                    Action::Idle
                }
            },
        }
    }
}

/// A change of the vault, as a user makes it.
pub enum VaultOp {
    /// Adding an entry with this name and this secret.
    Add(Seq<char>, Seq<char>),
    /// Deleting the selected entry.
    Delete,
    /// Deleting every entry.
    DeleteAll,
}

impl Session {
    /// The state after one change of the vault, made at `now`, whose save
    /// ended as `saved` tells.
    pub open spec fn apply(self, op: VaultOp, saved: bool, now: Moment) -> Session {
        match op {
            VaultOp::Add(name, secret) => (Session {
                new_entry_name: name,
                new_entry_secret: secret,
                ..self
            }).add_entry(saved, now),
            VaultOp::Delete => self.delete_entry(saved, now),
            VaultOp::DeleteAll => self.delete_all_entries(saved, now),
        }
    }

    /// The state after a sequence of changes of the vault, each with the
    /// outcome of its save and the moment it was made at.
    pub open spec fn run(self, ops: Seq<(VaultOp, bool, Moment)>) -> Session
        decreases ops.len(),
    {
        if ops.len() == 0 {
            self
        } else {
            self.run(ops.drop_last()).apply(ops.last().0, ops.last().1, ops.last().2)
        }
    }
}

/// Adding without a name or without a secret is no change of the vault: the
/// entries stay as they are, whatever the save would have come to, and the
/// notification says that empty entries are not allowed.
pub proof fn law_empty_entry_is_not_added(state: Session, saved: bool, now: Moment)
    requires
        state.new_entry_name.len() == 0 || state.new_entry_secret.len() == 0,
    ensures
        state.add_entry(saved, now).entries == state.entries,
        state.add_entry(saved, now).selected == state.selected,
        state.add_entry(saved, now).error_message == Some(
            (AuthError::EmptyEntryError.spec_message(), now),
        ),
{
}

/// Deleting on an empty vault changes nothing at all, and raises no
/// notification.
pub proof fn law_delete_on_empty_vault(state: Session, saved: bool, now: Moment)
    requires
        state.entries.len() == 0,
    ensures
        state.delete_entry(saved, now) == state,
        state.delete_all_entries(saved, now) == state,
{
}

/// One change of the vault keeps the selection on an entry, or at 0 where
/// the vault is empty.
pub proof fn law_change_keeps_selection_valid(
    state: Session,
    op: VaultOp,
    saved: bool,
    now: Moment,
)
    requires
        state.selection_valid(),
    ensures
        state.apply(op, saved, now).selection_valid(),
{
}

/// After any sequence of additions and deletions, the selection points at an
/// entry, or at 0 where the vault is empty.
pub proof fn law_selection_stays_valid(state: Session, ops: Seq<(VaultOp, bool, Moment)>)
    requires
        state.selection_valid(),
    ensures
        state.run(ops).selection_valid(),
    decreases ops.len(),
{
    if ops.len() > 0 {
        law_selection_stays_valid(state, ops.drop_last());
        law_change_keeps_selection_valid(
            state.run(ops.drop_last()),
            ops.last().0,
            ops.last().1,
            ops.last().2,
        );
    }
}

/// An import whose path has a fault is refused: the entries stay as they
/// are, whatever the file holds and whatever a save would have come to, and
/// the notification is that of the fault. A file whose extension is not
/// `toml` is such a path.
pub proof fn law_faulty_import_is_refused(
    state: Session,
    found: ImportFile,
    saved: bool,
    now: Moment,
)
    requires
        import_path_fault(found) is Some,
    ensures
        state.import_entries(found, saved, now).entries == state.entries,
        state.import_entries(found, saved, now).selected == state.selected,
        state.import_entries(found, saved, now).error_message == Some(
            (import_path_fault(found)->0.spec_message(), now),
        ),
        found.exists && !found.is_dir && !(found.extension matches Some(extension)
            && extension@ == TOML_EXT@) ==> import_path_fault(found) == Some(
            AuthError::TomlExtError,
        ),
{
}

/// Moving the selection keeps it on an entry, and on three entries the
/// move from the last goes to the first and the move back from the first
/// goes to the last.
pub proof fn law_selection_wraps(state: Session)
    requires
        state.selection_valid(),
        state.entries.len() > 0,
    ensures
        state.next_entry().selection_valid(),
        state.previous_entry().selection_valid(),
        state.selected == state.entries.len() - 1 ==> state.next_entry().selected == 0,
        state.selected == 0 ==> state.previous_entry().selected == state.entries.len() - 1,
        state.next_entry().previous_entry().selected == state.selected,
        state.previous_entry().next_entry().selected == state.selected,
{
    let len = state.entries.len() as int;
    if state.selected + 1 == len {
        lemma_mod_self_0(len);
    } else {
        lemma_small_mod((state.selected + 1) as nat, len as nat);
    }
    let before = state.previous_entry();
    if before.selected + 1 == len {
        lemma_mod_self_0(len);
    } else {
        lemma_small_mod((before.selected + 1) as nat, len as nat);
    }
}

/// A saved vault loads as it was saved, provided the TOML text of its
/// document parses to the table it was written from: opening the sealed
/// bytes with the same identity, decoding them and reading the document
/// gives the entries that were sealed, in their order.
pub proof fn law_saved_vault_loads(state: Session, bytes: Seq<u8>)
    requires
        state.sealed_as(bytes),
        reads_back(ENTRIES_KEY@, entry_rows(state.entries)),
    ensures
        opened_entries(state.key, bytes) == Ok::<Seq<EntryText>, AuthError>(
            state.entries,
        ),
{
    let text = state.document()->0;
    law_entries_read_back(state.entries);
    encode_utf8_valid_utf8(text);
    encode_utf8_decode_utf8(text);
}

} // verus!