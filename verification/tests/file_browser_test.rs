use auth::auth_core::app::{App, InputMode};
use auth::auth_core::crypto::Crypto;
use auth::input::event::{Action, KeyCode, KeyEvent};
use auth::ui::file_browser::{
    name_is_hidden, shown_entries, sort_by_name, text_no_later, Entered, FileBrowser, FileEntry,
};
use auth::utils::clock::Moment;

fn file(name: &str) -> FileEntry {
    FileEntry { name: name.to_string(), path: format!("/d/{}", name), is_dir: false }
}

fn dir(name: &str) -> FileEntry {
    FileEntry { name: name.to_string(), path: format!("/d/{}", name), is_dir: true }
}

fn names(entries: &[FileEntry]) -> Vec<String> {
    entries.iter().map(|e| e.name.clone()).collect()
}

fn chars(text: &str) -> Vec<char> {
    text.chars().collect()
}

fn listing() -> Vec<FileEntry> {
    vec![
        file("zeta.toml"),
        dir("src"),
        file(".hidden"),
        file("Alpha.toml"),
        dir(".git"),
        dir("Docs"),
        file("alpha.toml"),
        dir("assets"),
        file("beta.txt"),
    ]
}

fn browser() -> FileBrowser {
    FileBrowser::new("/d".to_string(), Some("/".to_string()), Some(listing()))
}

fn many(count: usize) -> FileBrowser {
    let entries = (0..count).map(|i| file(&format!("f{:03}", i))).collect();
    FileBrowser::new("/".to_string(), None, Some(entries))
}

#[test]
fn texts_are_ordered_by_code_point() {
    let cases = [
        ("", "", true),
        ("", "a", true),
        ("a", "", false),
        ("a", "a", true),
        ("a", "b", true),
        ("b", "a", false),
        ("ab", "abc", true),
        ("abc", "ab", false),
        ("Z", "a", true),
        ("a", "Z", false),
        ("a", "\u{e9}", true),
        ("\u{e9}", "z", false),
        ("abc", "abd", true),
    ];
    for (a, b, expected) in cases {
        assert_eq!(text_no_later(&chars(a), &chars(b)), expected, "{:?} <= {:?}", a, b);
        assert_eq!(text_no_later(&chars(a), &chars(b)), a <= b);
    }
}

#[test]
fn hidden_names_begin_with_a_dot() {
    assert!(name_is_hidden(".git"));
    assert!(name_is_hidden("."));
    assert!(name_is_hidden("..."));
    assert!(name_is_hidden(".a"));
    assert!(!name_is_hidden(".."));
    assert!(!name_is_hidden(""));
    assert!(!name_is_hidden("a.b"));
    assert!(!name_is_hidden("git"));
}

#[test]
fn sorting_pays_no_regard_to_case_and_keeps_ties_in_order() {
    let items = vec![file("b"), file("A"), file("a"), file("C"), file("B"), file("c"), file("\u{c9}")];
    let sorted = sort_by_name(&items);
    assert_eq!(names(&sorted), vec!["A", "a", "b", "B", "C", "c", "\u{c9}"]);
    assert_eq!(sorted[0].path, "/d/A");
    assert!(sort_by_name(&[].to_vec()).is_empty());
}

#[test]
fn sorting_agrees_with_a_stable_sort() {
    let items = listing();
    let mut expected = names(&items);
    expected.sort_by(|a, b| a.to_lowercase().cmp(&b.to_lowercase()));
    assert_eq!(names(&sort_by_name(&items)), expected);
}

#[test]
fn shown_entries_keep_the_order_of_the_listing() {
    let all = listing();
    assert_eq!(names(&shown_entries(&all, false, true)), vec!["src", "Docs", "assets"]);
    assert_eq!(names(&shown_entries(&all, true, true)), vec!["src", ".git", "Docs", "assets"]);
    assert_eq!(
        names(&shown_entries(&all, false, false)),
        vec!["zeta.toml", "Alpha.toml", "alpha.toml", "beta.txt"]
    );
    assert_eq!(
        names(&shown_entries(&all, true, false)),
        vec!["zeta.toml", ".hidden", "Alpha.toml", "alpha.toml", "beta.txt"]
    );
}

#[test]
fn a_listing_shows_the_parent_then_directories_then_files() {
    let browser = browser();
    assert_eq!(
        names(&browser.entries),
        vec!["..", "assets", "Docs", "src", "Alpha.toml", "alpha.toml", "beta.txt", "zeta.toml"]
    );
    assert_eq!(browser.entries[0].path, "/");
    assert!(browser.entries[0].is_dir);
    assert_eq!(browser.selected, 0);
    assert_eq!(browser.scroll, 0);
    assert_eq!(browser.max_visible, 11);
    assert!(!browser.show_hidden);
    assert_eq!(browser.get_current_dir(), "/d");
}

#[test]
fn a_directory_without_a_parent_lists_no_parent_row() {
    let browser = FileBrowser::new("/".to_string(), None, Some(vec![dir("etc"), file("f")]));
    assert_eq!(names(&browser.entries), vec!["etc", "f"]);
}

#[test]
fn an_unreadable_directory_lists_its_parent_alone() {
    let browser = FileBrowser::new("/d".to_string(), Some("/".to_string()), None);
    assert_eq!(names(&browser.entries), vec![".."]);
    let browser = FileBrowser::new("/".to_string(), None, None);
    assert!(browser.entries.is_empty());
    assert_eq!(browser.get_selected_path(), None);
}

#[test]
fn hidden_rows_show_after_a_toggle_and_a_refresh() {
    let mut browser = browser();
    browser.toggle_hidden_files();
    assert!(browser.show_hidden);
    assert_eq!(browser.entries.len(), 8);
    browser.refresh_entries(Some("/".to_string()), Some(listing()));
    assert_eq!(
        names(&browser.entries),
        vec![
            "..",
            ".git",
            "assets",
            "Docs",
            "src",
            ".hidden",
            "Alpha.toml",
            "alpha.toml",
            "beta.txt",
            "zeta.toml"
        ]
    );
    browser.toggle_hidden_files();
    browser.refresh_entries(Some("/".to_string()), Some(listing()));
    assert_eq!(browser.entries.len(), 8);
}

#[test]
fn a_refresh_keeps_a_cursor_that_still_stands_on_a_row() {
    let mut browser = browser();
    browser.selected = 3;
    browser.refresh_entries(Some("/".to_string()), Some(listing()));
    assert_eq!(browser.selected, 3);
    browser.selected = 7;
    browser.scroll = 2;
    browser.refresh_entries(Some("/".to_string()), Some(vec![file("only")]));
    assert_eq!(names(&browser.entries), vec!["..", "only"]);
    assert_eq!(browser.selected, 0);
    assert_eq!(browser.scroll, 0);
}

#[test]
fn the_cursor_wraps_around() {
    let mut browser = browser();
    browser.move_up();
    assert_eq!(browser.selected, 7);
    browser.move_down();
    assert_eq!(browser.selected, 0);
    browser.move_down();
    assert_eq!(browser.selected, 1);
    browser.move_up();
    assert_eq!(browser.selected, 0);
    assert_eq!(browser.scroll, 0);
}

#[test]
fn the_cursor_does_not_move_without_rows() {
    let mut browser = FileBrowser::new("/".to_string(), None, None);
    browser.move_up();
    browser.move_down();
    assert_eq!(browser.selected, 0);
    assert_eq!(browser.scroll, 0);
    assert!(matches!(browser.enter(), Entered::Nothing));
}

#[test]
fn the_window_follows_the_cursor_down() {
    let mut browser = many(30);
    for step in 1..=10 {
        browser.move_down();
        assert_eq!(browser.selected, step);
        assert_eq!(browser.scroll, 0);
    }
    browser.move_down();
    assert_eq!(browser.selected, 11);
    assert_eq!(browser.scroll, 1);
    for _ in 0..18 {
        browser.move_down();
    }
    assert_eq!(browser.selected, 29);
    assert_eq!(browser.scroll, 19);
    browser.move_down();
    assert_eq!(browser.selected, 0);
    assert_eq!(browser.scroll, 0);
}

#[test]
fn the_window_follows_the_cursor_up() {
    let mut browser = many(30);
    browser.move_up();
    assert_eq!(browser.selected, 29);
    assert_eq!(browser.scroll, 19);
    for _ in 0..10 {
        browser.move_up();
    }
    assert_eq!(browser.selected, 19);
    assert_eq!(browser.scroll, 19);
    browser.move_up();
    assert_eq!(browser.selected, 18);
    assert_eq!(browser.scroll, 18);
}

#[test]
fn the_cursor_stays_inside_the_window() {
    let mut browser = many(40);
    let steps = "dddddddddddddduuuddddddddddddddddddddddddddddduuuuuuuuuuuuuuuuuuuuuuuuuuuuuuuuuuuuuuuuuuuuu";
    for step in steps.chars() {
        if step == 'd' {
            browser.move_down();
        } else {
            browser.move_up();
        }
        assert!(browser.selected < browser.entries.len());
        assert!(browser.scroll <= browser.selected);
        assert!(browser.selected < browser.scroll + browser.max_visible);
    }
}

#[test]
fn entering_a_directory_moves_into_it() {
    let mut browser = browser();
    browser.move_down();
    browser.move_down();
    match browser.enter() {
        Entered::Directory(path) => assert_eq!(path, "/d/Docs"),
        other => panic!("unexpected outcome: {:?}", other),
    }
    assert_eq!(browser.get_current_dir(), "/d/Docs");
    assert_eq!(browser.selected, 0);
    assert_eq!(browser.scroll, 0);
    browser.refresh_entries(Some("/d".to_string()), Some(vec![file("readme")]));
    assert_eq!(names(&browser.entries), vec!["..", "readme"]);
    match browser.enter() {
        Entered::Directory(path) => assert_eq!(path, "/d"),
        other => panic!("unexpected outcome: {:?}", other),
    }
}

#[test]
fn entering_a_file_picks_it() {
    let mut browser = browser();
    browser.selected = 4;
    assert_eq!(browser.get_selected_path(), Some("/d/Alpha.toml".to_string()));
    match browser.enter() {
        Entered::File(path) => assert_eq!(path, "/d/Alpha.toml"),
        other => panic!("unexpected outcome: {:?}", other),
    }
    assert_eq!(browser.get_current_dir(), "/d");
    assert_eq!(browser.selected, 4);
}

#[test]
fn a_reset_goes_back_to_the_starting_directory() {
    let mut browser = many(30);
    for _ in 0..20 {
        browser.move_down();
    }
    browser.reset("/home/u".to_string(), Some("/home".to_string()), Some(listing()));
    assert_eq!(browser.get_current_dir(), "/home/u");
    assert_eq!(browser.selected, 0);
    assert_eq!(browser.scroll, 0);
    assert_eq!(browser.entries.len(), 8);
    assert_eq!(browser.entries[0].path, "/home");
}

#[test]
fn the_starting_directory_is_the_configured_one_if_it_is_a_directory() {
    assert_eq!(
        FileBrowser::get_default_directory(Some("/tmp/test_file_browser_dir"), true, Some("/home/u")),
        "/tmp/test_file_browser_dir"
    );
    assert_eq!(
        FileBrowser::get_default_directory(Some("/tmp/nonexistent_dir_123456789"), false, Some("/home/u")),
        "/home/u"
    );
    assert_eq!(FileBrowser::get_default_directory(None, false, Some("/home/u")), "/home/u");
    assert_eq!(FileBrowser::get_default_directory(None, true, Some("/home/u")), "/home/u");
    assert_eq!(FileBrowser::get_default_directory(None, false, None), ".");
    assert_eq!(FileBrowser::get_default_directory(Some("/x"), false, None), ".");
}

fn at(secs: u64) -> Moment {
    Moment::from_secs(secs)
}

fn press(app: &mut App, code: KeyCode) -> Action {
    app.handle_key_event(KeyEvent::pressed(code), at(100))
}

fn browsing(operation: char) -> App {
    let mut app = App::new("/vault/entries.toml".to_string(), Crypto::new(None).unwrap());
    app.use_file_browser = true;
    app.new_entry_name = "GitHub".to_string();
    app.new_entry_secret = "JBSWY3DPEHPK3PXP".to_string();
    assert!(matches!(app.add_entry(at(1)), Action::WriteVault(_)));
    app.path_input = "stale".to_string();
    assert!(matches!(press(&mut app, KeyCode::Char(operation)), Action::OpenBrowser));
    app.file_browser.reset("/d".to_string(), Some("/".to_string()), Some(listing()));
    app
}

#[test]
fn i_and_e_open_the_browser_where_the_session_uses_one() {
    let app = browsing('i');
    assert_eq!(app.input_mode, InputMode::FileBrowser);
    assert_eq!(app.file_operation, Some(InputMode::Importing));
    assert_eq!(app.path_input, "");
    let app = browsing('e');
    assert_eq!(app.input_mode, InputMode::FileBrowser);
    assert_eq!(app.file_operation, Some(InputMode::Exporting));
}

#[test]
fn the_browser_is_steered_by_keys() {
    let mut app = browsing('i');
    press(&mut app, KeyCode::Char('j'));
    press(&mut app, KeyCode::Down);
    assert_eq!(app.file_browser.selected, 2);
    press(&mut app, KeyCode::Char('k'));
    press(&mut app, KeyCode::Up);
    press(&mut app, KeyCode::Up);
    assert_eq!(app.file_browser.selected, 7);
    for code in [KeyCode::Char('x'), KeyCode::Char('a'), KeyCode::Tab, KeyCode::Backspace, KeyCode::Other] {
        assert!(matches!(press(&mut app, code), Action::Idle));
    }
    assert_eq!(app.input_mode, InputMode::FileBrowser);
    assert_eq!(app.entries.len(), 1);
}

#[test]
fn a_dot_toggles_hidden_rows_and_asks_for_the_listing() {
    let mut app = browsing('i');
    match press(&mut app, KeyCode::Char('.')) {
        Action::ListDirectory(path) => assert_eq!(path, "/d"),
        other => panic!("unexpected action: {:?}", other),
    }
    assert!(app.file_browser.show_hidden);
    app.file_browser.refresh_entries(Some("/".to_string()), Some(listing()));
    assert_eq!(app.file_browser.entries.len(), 10);
}

#[test]
fn q_and_escape_leave_the_browser() {
    for code in [KeyCode::Char('q'), KeyCode::Esc] {
        let mut app = browsing('e');
        app.path_input = "typed".to_string();
        assert!(matches!(press(&mut app, code), Action::Idle));
        assert_eq!(app.input_mode, InputMode::Normal);
        assert_eq!(app.file_operation, None);
        assert_eq!(app.path_input, "");
        assert!(!app.should_quit);
    }
}

#[test]
fn enter_on_a_directory_asks_for_its_listing() {
    let mut app = browsing('i');
    press(&mut app, KeyCode::Down);
    match press(&mut app, KeyCode::Enter) {
        Action::ListDirectory(path) => assert_eq!(path, "/d/assets"),
        other => panic!("unexpected action: {:?}", other),
    }
    assert_eq!(app.file_browser.get_current_dir(), "/d/assets");
    assert_eq!(app.input_mode, InputMode::FileBrowser);
    assert_eq!(app.path_input, "");
}

#[test]
fn enter_on_a_file_imports_it() {
    let mut app = browsing('i');
    for _ in 0..4 {
        press(&mut app, KeyCode::Down);
    }
    match press(&mut app, KeyCode::Enter) {
        Action::ReadImport(path) => assert_eq!(path, "/d/Alpha.toml"),
        other => panic!("unexpected action: {:?}", other),
    }
    assert_eq!(app.input_mode, InputMode::Normal);
    assert_eq!(app.file_operation, None);
    assert_eq!(app.path_input, "/d/Alpha.toml");
}

#[test]
fn enter_on_a_file_picks_the_target_of_an_export() {
    let mut app = browsing('e');
    for _ in 0..4 {
        press(&mut app, KeyCode::Down);
    }
    assert!(matches!(press(&mut app, KeyCode::Enter), Action::Idle));
    assert_eq!(app.input_mode, InputMode::FileBrowser);
    assert_eq!(app.path_input, "/d/Alpha.toml");
    match press(&mut app, KeyCode::Char('s')) {
        Action::WriteExport { path, contents } => {
            assert_eq!(path, "/d/Alpha.toml");
            assert_eq!(contents, "[[entries]]\nname = \"GitHub\"\nsecret = \"JBSWY3DPEHPK3PXP\"\n");
        }
        other => panic!("unexpected action: {:?}", other),
    }
    assert_eq!(app.input_mode, InputMode::Normal);
    assert_eq!(app.file_operation, None);
}

#[test]
fn s_exports_into_the_current_directory() {
    let mut app = browsing('e');
    match press(&mut app, KeyCode::Char('s')) {
        Action::WriteExport { path, .. } => assert_eq!(path, "/d"),
        other => panic!("unexpected action: {:?}", other),
    }
    assert_eq!(app.input_mode, InputMode::Normal);
    assert_eq!(app.path_input, "/d");
}

#[test]
fn s_does_nothing_while_an_import_is_pending() {
    let mut app = browsing('i');
    assert!(matches!(press(&mut app, KeyCode::Char('s')), Action::Idle));
    assert_eq!(app.input_mode, InputMode::FileBrowser);
    assert_eq!(app.file_operation, Some(InputMode::Importing));
}

#[test]
fn s_on_an_empty_vault_ends_in_a_notification() {
    let mut app = App::new("p".to_string(), Crypto::new(None).unwrap());
    app.use_file_browser = true;
    press(&mut app, KeyCode::Char('e'));
    app.file_browser.reset("/d".to_string(), None, Some(listing()));
    let action = app.handle_key_event(KeyEvent::pressed(KeyCode::Char('s')), at(8));
    assert!(matches!(action, Action::Idle));
    assert_eq!(app.input_mode, InputMode::Normal);
    assert_eq!(app.error_message, Some(("No entries to export".to_string(), at(8))));
}

#[test]
fn control_c_quits_from_the_browser() {
    let mut app = browsing('i');
    let event = KeyEvent { code: KeyCode::Char('c'), control: true, shift: false, press: true };
    assert!(matches!(app.handle_key_event(event, at(1)), Action::Idle));
    assert!(app.should_quit);
    assert_eq!(app.input_mode, InputMode::FileBrowser);
}
