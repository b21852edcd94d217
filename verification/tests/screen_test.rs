use auth::auth_core::app::{App, InputField, InputMode};
use auth::auth_core::crypto::Crypto;
use auth::auth_core::entry::Entry;
use auth::ui::file_browser::{FileBrowser, FileEntry};
use auth::ui::layout::{centered_margin, pad_vertical};
use auth::ui::renderer::{
    create_cursor_indicators, format_entry_text, get_file_browser_title, get_file_popup_title,
    get_help_text, get_max_name_width, name_column_width,
};
use auth::ui::size::{create_warning_text, format_warning_line, is_terminal_too_small};
use auth::utils::cli::Args;
use auth::utils::clipboard::{clipboard_tool, ClipboardTool};
use auth::utils::text::{chars_of, decimal_text, pad_left, pad_right, push_spaces};

fn entry(name: &str) -> Entry {
    Entry { name: name.to_string(), secret: "JBSW".to_string() }
}

#[test]
fn numbers_are_written_in_decimal() {
    for n in [0u64, 1, 9, 10, 11, 30, 99, 100, 101, 1234567890, u64::MAX] {
        assert_eq!(decimal_text(n), n.to_string());
    }
}

#[test]
fn texts_are_padded_to_a_width() {
    assert_eq!(pad_right("ab", 5), "ab   ");
    assert_eq!(pad_right("abcde", 5), "abcde");
    assert_eq!(pad_right("abcdef", 5), "abcdef");
    assert_eq!(pad_right("", 2), "  ");
    assert_eq!(pad_right("", 0), "");
    assert_eq!(pad_left("ab", 5), "   ab");
    assert_eq!(pad_left("abcde", 5), "abcde");
    assert_eq!(pad_left("abcdef", 5), "abcdef");
    assert_eq!(pad_left("\u{e9}", 3), "  \u{e9}");
    assert_eq!(pad_right("\u{e9}\u{e9}", 3), "\u{e9}\u{e9} ");
    let mut text = "x".to_string();
    push_spaces(&mut text, 3);
    assert_eq!(text, "x   ");
    push_spaces(&mut text, 0);
    assert_eq!(text, "x   ");
}

#[test]
fn texts_are_taken_apart_by_character() {
    assert_eq!(chars_of("a\u{e9}b"), vec!['a', '\u{e9}', 'b']);
    assert_eq!(chars_of(""), Vec::<char>::new());
}

#[test]
fn a_popup_is_centred_between_equal_margins() {
    assert_eq!(centered_margin(60), 20);
    assert_eq!(centered_margin(20), 40);
    assert_eq!(centered_margin(50), 25);
    assert_eq!(centered_margin(25), 37);
    assert_eq!(centered_margin(0), 50);
    assert_eq!(centered_margin(99), 0);
    assert_eq!(centered_margin(100), 0);
    assert_eq!(centered_margin(101), 0);
    assert_eq!(centered_margin(u16::MAX), 0);
}

#[test]
fn a_text_is_centred_below_half_of_the_free_rows() {
    assert_eq!(pad_vertical(5, 31), 13);
    assert_eq!(pad_vertical(5, 30), 12);
    assert_eq!(pad_vertical(5, 6), 0);
    assert_eq!(pad_vertical(5, 7), 1);
    assert_eq!(pad_vertical(5, 5), 0);
    assert_eq!(pad_vertical(5, 4), 0);
    assert_eq!(pad_vertical(0, 10), 5);
    assert_eq!(pad_vertical(0, 0), 0);
    assert_eq!(pad_vertical(usize::MAX, u16::MAX), 0);
}

#[test]
fn a_terminal_below_110_by_30_is_too_small() {
    assert!(!is_terminal_too_small(110, 30));
    assert!(!is_terminal_too_small(200, 60));
    assert!(is_terminal_too_small(109, 30));
    assert!(is_terminal_too_small(110, 29));
    assert!(is_terminal_too_small(0, 0));
    assert!(is_terminal_too_small(u16::MAX, 29));
}

#[test]
fn the_size_warning_states_both_sizes() {
    assert_eq!(format_warning_line(80, 24), "Width = 80 Height = 24");
    assert_eq!(
        create_warning_text(80, 24),
        vec![
            "Terminal size too small:",
            "Width = 80 Height = 24",
            "",
            "Needed to display properly:",
            "Width = 110 Height = 30",
        ]
    );
}

#[test]
fn the_name_column_fits_the_longest_name() {
    assert_eq!(get_max_name_width(&vec![]), 0);
    assert_eq!(get_max_name_width(&vec![entry("abc")]), 3);
    assert_eq!(get_max_name_width(&vec![entry("abc"), entry("abcdef"), entry("a")]), 6);
    assert_eq!(get_max_name_width(&vec![entry("\u{e9}t\u{e9}"), entry("abcd")]), 5);
    assert_eq!(name_column_width(6), 8);
    assert_eq!(name_column_width(0), 2);
    assert_eq!(name_column_width(usize::MAX), usize::MAX);
}

#[test]
fn the_line_of_an_entry_is_laid_out_in_columns() {
    assert_eq!(format_entry_text("GitHub", "287082", 1, 8), "GitHub   287082 (1s)");
    assert_eq!(format_entry_text("GitHub", "287082", 30, 10), "GitHub     287082 (30s)");
    assert_eq!(format_entry_text("broken", "Invalid", 0, 8), "broken   Invalid (0s)");
    assert_eq!(format_entry_text("a long name", "12", 7, 3), "a long name     12 (7s)");
    for (name, code, remaining, width) in
        [("GitHub", "287082", 1u64, 8usize), ("", "", 0, 0), ("\u{e9}", "Invalid", 12, 4)]
    {
        assert_eq!(
            format_entry_text(name, code, remaining, width),
            format!("{:<width$} {:>6} ({:>1}s)", name, code, remaining, width = width)
        );
    }
}

#[test]
fn the_cursor_stands_behind_the_active_field() {
    assert_eq!(create_cursor_indicators(InputField::Name), ("|", ""));
    assert_eq!(create_cursor_indicators(InputField::Secret), ("", "|"));
}

#[test]
fn the_help_line_follows_the_mode() {
    let main = "a: add  E: edit  d: del  i: import  e: export  \u{2191}/k: up  \u{2193}/j: down  enter: copy  q: quit  tab: cycle fields";
    let browse = "\u{2191}/k: up  \u{2193}/j: down  enter: select  .: toggle hidden  q/esc: cancel";
    let export = "\u{2191}/k: up  \u{2193}/j: down  enter: select  .: toggle hidden  s: save  q/esc: cancel";
    for mode in [InputMode::Normal, InputMode::Adding, InputMode::Editing, InputMode::Importing, InputMode::Exporting] {
        assert_eq!(get_help_text(mode, None), main);
        assert_eq!(get_help_text(mode, Some(InputMode::Exporting)), main);
    }
    assert_eq!(get_help_text(InputMode::FileBrowser, Some(InputMode::Exporting)), export);
    assert_eq!(get_help_text(InputMode::FileBrowser, Some(InputMode::Importing)), browse);
    assert_eq!(get_help_text(InputMode::FileBrowser, None), browse);
}

#[test]
fn the_popups_are_titled_by_mode() {
    assert_eq!(get_file_popup_title(InputMode::Importing), Some(" Import "));
    assert_eq!(get_file_popup_title(InputMode::Exporting), Some(" Export "));
    assert_eq!(get_file_popup_title(InputMode::Normal), None);
    assert_eq!(get_file_popup_title(InputMode::FileBrowser), None);
    assert_eq!(get_file_browser_title(Some(InputMode::Importing)), " Select File to Import ");
    assert_eq!(get_file_browser_title(Some(InputMode::Exporting)), " Select Location to Export ");
    assert_eq!(get_file_browser_title(Some(InputMode::Normal)), " File Browser ");
    assert_eq!(get_file_browser_title(None), " File Browser ");
}

#[test]
fn root_is_refused_unless_the_check_is_off() {
    let plain = Args { no_root_check: false, no_size_check: false, mouse: false };
    let unchecked = Args { no_root_check: true, no_size_check: false, mouse: true };
    assert!(plain.refuses_to_run(true));
    assert!(!plain.refuses_to_run(false));
    assert!(!unchecked.refuses_to_run(true));
    assert!(!unchecked.refuses_to_run(false));
}

#[test]
fn the_cursor_row_is_counted_from_the_top_of_the_window() {
    let entries = (0..30)
        .map(|i| FileEntry { name: format!("f{:02}", i), path: format!("/f{:02}", i), is_dir: false })
        .collect();
    let mut browser = FileBrowser::new("/".to_string(), None, Some(entries));
    assert!(browser.cursor_is_valid());
    assert_eq!(browser.cursor_row(), 0);
    for _ in 0..15 {
        browser.move_down();
    }
    assert_eq!(browser.selected, 15);
    assert_eq!(browser.scroll, 5);
    assert_eq!(browser.cursor_row(), 10);
    browser.scroll = 20;
    assert_eq!(browser.cursor_row(), 0);
    browser.selected = 30;
    assert!(!browser.cursor_is_valid());
}

#[test]
fn a_session_knows_whether_it_is_well_formed() {
    let mut app = App::new("p".to_string(), Crypto::new(None).unwrap());
    assert!(app.is_well_formed());
    app.selected = 1;
    assert!(!app.is_well_formed());
    assert!(!app.selection_is_valid());
    app.selected = 0;
    app.file_browser.entries.push(FileEntry {
        name: "f".to_string(),
        path: "/f".to_string(),
        is_dir: false,
    });
    assert!(app.is_well_formed());
    app.file_browser.selected = 1;
    assert!(!app.is_well_formed());
    assert!(app.selection_is_valid());
}

#[test]
fn a_wayland_session_copies_with_wl_copy_first() {
    assert_eq!(clipboard_tool(true), ClipboardTool::WlCopy);
    assert_eq!(clipboard_tool(false), ClipboardTool::Xclip);
    assert_eq!(clipboard_tool(true).other(), ClipboardTool::Xclip);
    assert_eq!(clipboard_tool(false).other(), ClipboardTool::WlCopy);
    assert_eq!(ClipboardTool::WlCopy.command(), "wl-copy");
    assert_eq!(ClipboardTool::Xclip.command(), "xclip");
}
