//! The texts of the screen: the lines of the entry list, the help line, the
//! titles of the popups, and the cursor of the entry popup.
//!
//! Drawing is the host's. What is drawn is worked out here.

use crate::auth_core::app::{InputField, InputMode};
use crate::auth_core::entry::Entry;
use crate::utils::text::{decimal, decimal_text, pad_left, pad_right, padded_left, padded_right};
use vstd::prelude::*;
use vstd::string::StringExecFns;
use vstd::utf8::encode_utf8;

verus! {

/// The help line of the main screen.
pub const HELP_TEXT: &'static str = "a: add  E: edit  d: del  i: import  e: export  \u{2191}/k: up  \u{2193}/j: down  enter: copy  q: quit  tab: cycle fields";

/// The help line of the file browser while an import is pending.
pub const FILE_BROWSER_HELP_TEXT: &'static str =
    "\u{2191}/k: up  \u{2193}/j: down  enter: select  .: toggle hidden  q/esc: cancel";

/// The help line of the file browser while an export is pending.
pub const EXPORT_HELP_TEXT: &'static str =
    "\u{2191}/k: up  \u{2193}/j: down  enter: select  .: toggle hidden  s: save  q/esc: cancel";

pub const BINDINGS_TITLE: &'static str = " Bindings ";

pub const ADD_ENTRY_TITLE: &'static str = " Add Entry ";

pub const EDIT_ENTRY_TITLE: &'static str = " Edit Entry ";

pub const IMPORT_TITLE: &'static str = " Import ";

pub const EXPORT_TITLE: &'static str = " Export ";

pub const IMPORT_BROWSER_TITLE: &'static str = " Select File to Import ";

pub const EXPORT_BROWSER_TITLE: &'static str = " Select Location to Export ";

pub const FILE_BROWSER_TITLE: &'static str = " File Browser ";

pub const NAME_LABEL: &'static str = "Name:";

pub const SECRET_LABEL: &'static str = "Secret:";

pub const PATH_LABEL: &'static str = "Path:";

/// The mark that stands behind the text being typed.
pub const CURSOR_CHAR: &'static str = "|";

/// Columns taken by a code.
pub const CODE_WIDTH: usize = 6;

/// Columns between the longest name and the codes.
pub const NAME_PADDING: usize = 2;

/// The length of a name in bytes, as its UTF-8 encoding has it.
pub open spec fn name_len(name: Seq<char>) -> usize {
    encode_utf8(name).len() as usize
}

/// The length in bytes of the longest of the first `count` names; 0 where
/// there is none.
pub open spec fn max_name_width(entries: Seq<Entry>, count: int) -> usize
    decreases count,
{
    if count <= 0 {
        0
    } else {
        let before = max_name_width(entries, count - 1);
        let this = name_len(entries[count - 1].name@);
        if this > before {
            this
        } else {
            before
        }
    }
}

/// The line of an entry in the list: the name, padded to `width` columns, the
/// code, right-aligned in six, and the seconds the code stays current.
pub open spec fn entry_text(
    name: Seq<char>,
    code: Seq<char>,
    remaining: u64,
    width: nat,
) -> Seq<char> {
    padded_right(name, width) + " "@ + padded_left(code, CODE_WIDTH as nat) + " ("@
        + decimal(remaining as nat) + "s)"@
}

/// The help line in a mode: that of the file browser, by the pending
/// operation, while it is open, else that of the main screen.
pub open spec fn help_text_of(
    input_mode: InputMode,
    file_operation: Option<InputMode>,
) -> Seq<char> {
    if input_mode == InputMode::FileBrowser {
        if file_operation == Some(InputMode::Exporting) {
            EXPORT_HELP_TEXT@
        } else {
            FILE_BROWSER_HELP_TEXT@
        }
    } else {
        HELP_TEXT@
    }
}

/// The title of the popup that asks for a path, if the mode has one.
pub open spec fn file_popup_title_of(input_mode: InputMode) -> Option<Seq<char>> {
    match input_mode {
        InputMode::Importing => Some(IMPORT_TITLE@),
        InputMode::Exporting => Some(EXPORT_TITLE@),
        _ => None,
    }
}

/// The title of the file browser, by the pending operation.
pub open spec fn browser_title_of(file_operation: Option<InputMode>) -> Seq<char> {
    match file_operation {
        Some(InputMode::Importing) => IMPORT_BROWSER_TITLE@,
        Some(InputMode::Exporting) => EXPORT_BROWSER_TITLE@,
        _ => FILE_BROWSER_TITLE@,
    }
}

/// The length in bytes of the longest name in the list; 0 for an empty list.
pub fn get_max_name_width(entries: &Vec<Entry>) -> (width: usize)
    ensures
        width == max_name_width(entries@, entries@.len() as int),
{
    let mut width: usize = 0;
    let mut i: usize = 0;
    while i < entries.len()
        invariant
            i <= entries.len(),
            width == max_name_width(entries@, i as int),
        decreases entries.len() - i,
    {
        let this = entries[i].name.as_str().len();
        if this > width {
            width = this;
        }
        i = i + 1;
    }
    width
}

/// The columns of the name column, for a longest name of `max_width`.
pub fn name_column_width(max_width: usize) -> (width: usize)
    ensures
        width == if max_width + NAME_PADDING <= usize::MAX {
            max_width + NAME_PADDING
        } else {
            usize::MAX as int
        },
{
    max_width.saturating_add(NAME_PADDING)
}

/// Writes the line of an entry in the list.
pub fn format_entry_text(name: &str, code: &str, remaining: u64, width: usize) -> (line: String)
    ensures
        line@ == entry_text(name@, code@, remaining, width as nat),
{
    let line = pad_right(name, width)
        .concat(" ")
        .concat(pad_left(code, CODE_WIDTH).as_str())
        .concat(" (")
        .concat(decimal_text(remaining).as_str())
        .concat("s)");
    assert(line@ =~= entry_text(name@, code@, remaining, width as nat));
    line
}

/// The marks behind the name and behind the secret in the entry popup: the
/// cursor behind the active field, nothing behind the other.
pub fn create_cursor_indicators(input_field: InputField) -> (marks: (&'static str, &'static str))
    ensures
        marks.0@ == if input_field == InputField::Name {
            CURSOR_CHAR@
        } else {
            ""@
        },
        marks.1@ == if input_field == InputField::Secret {
            CURSOR_CHAR@
        } else {
            ""@
        },
{
    match input_field {
        InputField::Name => (CURSOR_CHAR, ""),
        InputField::Secret => ("", CURSOR_CHAR),
    }
}

/// The help line in a mode.
pub fn get_help_text(
    input_mode: InputMode,
    file_operation: Option<InputMode>,
) -> (text: &'static str)
    ensures
        text@ == help_text_of(input_mode, file_operation),
{
    match input_mode {
        InputMode::FileBrowser => match file_operation {
            Some(InputMode::Exporting) => EXPORT_HELP_TEXT,
            _ => FILE_BROWSER_HELP_TEXT,
        },
        _ => HELP_TEXT,
    }
}

/// The title of the popup that asks for a path; nothing in a mode that has
/// no such popup.
pub fn get_file_popup_title(input_mode: InputMode) -> (title: Option<&'static str>)
    ensures
        match title {
            Some(text) => file_popup_title_of(input_mode) == Some(text@),
            None => file_popup_title_of(input_mode) is None,
        },
{
    match input_mode {
        InputMode::Importing => Some(IMPORT_TITLE),
        InputMode::Exporting => Some(EXPORT_TITLE),
        _ => None,
    }
}

/// The title of the file browser.
pub fn get_file_browser_title(file_operation: Option<InputMode>) -> (title: &'static str)
    ensures
        title@ == browser_title_of(file_operation),
{
    match file_operation {
        Some(InputMode::Importing) => IMPORT_BROWSER_TITLE,
        Some(InputMode::Exporting) => EXPORT_BROWSER_TITLE,
        _ => FILE_BROWSER_TITLE,
    }
}

} // verus!
