//! A browser over one directory at a time: what it lists, in what order, and
//! where its cursor and its window stand.
//!
//! The browser never looks at the file system. Its host lists a directory
//! and hands the listing over; the browser filters and orders it and keeps
//! the cursor.

use crate::utils::text::chars_of;
use vstd::prelude::*;
use vstd::string::StringExecFns;

verus! {

/// The rows of a listing that are shown at a time.
pub const MAX_VISIBLE: usize = 11;

/// The name under which the parent directory is listed.
pub const PARENT_NAME: &'static str = "..";

/// One row of a listing: the name shown, the path it stands for, and whether
/// that is a directory.
#[derive(Debug)]
pub struct FileEntry {
    pub name: String,
    pub path: String,
    pub is_dir: bool,
}

/// A row as a value: the name, the path, and whether it is a directory.
pub type Row = (Seq<char>, Seq<char>, bool);

impl View for FileEntry {
    type V = Row;

    open spec fn view(&self) -> Row {
        (self.name@, self.path@, self.is_dir)
    }
}

impl Clone for FileEntry {
    fn clone(&self) -> (copy: Self)
        ensures
            copy@ == self@,
    {
        FileEntry { name: self.name.clone(), path: self.path.clone(), is_dir: self.is_dir }
    }
}

/// The rows of a list of entries, as values.
pub open spec fn rows(entries: Seq<FileEntry>) -> Seq<Row> {
    entries.map_values(|entry: FileEntry| entry@)
}

/// What `str::to_lowercase` returns for `text`.
pub uninterp spec fn lowercased(text: Seq<char>) -> Seq<char>;

/// `str::to_lowercase`: the text in lower case.
#[verifier::external_body]
fn to_lowercase(text: &str) -> (lower: String)
    ensures
        lower@ == lowercased(text@),
{
    text.to_lowercase()
}

/// Whether `a` comes no later than `b` in the order of texts: character by
/// character, by code point, a prefix before what it begins.
pub open spec fn text_le(a: Seq<char>, b: Seq<char>) -> bool
    decreases a.len(),
{
    if a.len() == 0 {
        true
    } else if b.len() == 0 {
        false
    } else if a[0] != b[0] {
        a[0] < b[0]
    } else {
        text_le(a.drop_first(), b.drop_first())
    }
}

/// The key a row is ordered by: its name in lower case.
pub open spec fn name_key(row: Row) -> Seq<char> {
    lowercased(row.0)
}

/// Where a row with the key `key` goes into `sorted`: behind every leading
/// row whose key comes no later, so behind the rows of the same key that are
/// there already.
pub open spec fn insert_position(sorted: Seq<Row>, key: Seq<char>) -> nat
    decreases sorted.len(),
{
    if sorted.len() == 0 || !text_le(name_key(sorted[0]), key) {
        0
    } else {
        1 + insert_position(sorted.drop_first(), key)
    }
}

/// The rows ordered by name, without regard to case. Rows whose names differ
/// in case only keep the order they came in.
pub open spec fn sorted_by_name(items: Seq<Row>) -> Seq<Row>
    decreases items.len(),
{
    if items.len() == 0 {
        items
    } else {
        let before = sorted_by_name(items.drop_last());
        before.insert(insert_position(before, name_key(items.last())) as int, items.last())
    }
}

/// Whether a name is hidden: it begins with a dot and is not the parent's.
pub open spec fn is_hidden(name: Seq<char>) -> bool {
    name.len() > 0 && name[0] == '.' && name != PARENT_NAME@
}

/// The test a row passes to be shown among the directories, or among the
/// files: hidden rows fail it unless they are asked for.
pub open spec fn is_shown(show_hidden: bool, directories: bool) -> spec_fn(Row) -> bool {
    |row: Row| (show_hidden || !is_hidden(row.0)) && row.2 == directories
}

/// The rows of `listing` that are shown and are directories, or are files.
pub open spec fn shown_rows(
    listing: Seq<Row>,
    show_hidden: bool,
    directories: bool,
) -> Seq<Row> {
    listing.filter(is_shown(show_hidden, directories))
}

/// The row that stands for the parent directory, where there is one.
pub open spec fn parent_rows(parent: Option<Seq<char>>) -> Seq<Row> {
    match parent {
        Some(path) => seq![(PARENT_NAME@, path, true)],
        None => Seq::empty(),
    }
}

/// What a directory lists as: its parent first, if it has one; then its
/// directories, then its files, each ordered by name. A directory that could
/// not be read lists as its parent alone.
pub open spec fn listed(
    parent: Option<Seq<char>>,
    listing: Option<Seq<Row>>,
    show_hidden: bool,
) -> Seq<Row> {
    match listing {
        Some(found) => parent_rows(parent) + sorted_by_name(shown_rows(found, show_hidden, true))
            + sorted_by_name(shown_rows(found, show_hidden, false)),
        None => parent_rows(parent),
    }
}

/// The browser, as a value.
pub struct Browser {
    pub current_dir: Seq<char>,
    pub entries: Seq<Row>,
    pub selected: int,
    pub scroll: int,
    pub max_visible: int,
    pub show_hidden: bool,
}

/// What entering the selected row comes to.
#[derive(Debug)]
pub enum Entered {
    /// There is no row.
    Nothing,
    /// A directory was entered: it is to be listed, and the listing handed
    /// to `refresh_entries`.
    Directory(String),
    /// A file was picked.
    File(String),
}

impl Browser {
    /// A browser that has not been pointed at a directory yet: no directory,
    /// no rows.
    pub open spec fn initial() -> Browser {
        Browser {
            current_dir: Seq::empty(),
            entries: Seq::empty(),
            selected: 0,
            scroll: 0,
            max_visible: MAX_VISIBLE as int,
            show_hidden: false,
        }
    }

    /// The cursor stands on a row, where there is one.
    pub open spec fn valid(self) -> bool {
        self.entries.len() > 0 ==> 0 <= self.selected < self.entries.len()
    }

    /// The cursor stands inside the window.
    pub open spec fn in_window(self) -> bool {
        0 <= self.scroll <= self.selected < self.scroll + self.max_visible
    }

    /// The window moved, if it must, so that the row `selected` is its first
    /// row when it lies above the window and its last row when it lies below.
    pub open spec fn scroll_towards(self, selected: int) -> int {
        if selected < self.scroll {
            selected
        } else if selected >= self.scroll + self.max_visible {
            selected - self.max_visible + 1
        } else {
            self.scroll
        }
    }

    /// The cursor one row up, from the first row to the last.
    pub open spec fn move_up(self) -> Browser {
        if self.entries.len() == 0 {
            self
        } else {
            let selected = if self.selected > 0 {
                self.selected - 1
            } else {
                self.entries.len() - 1
            };
            Browser { selected, scroll: self.scroll_towards(selected), ..self }
        }
    }

    /// The cursor one row down, from the last row to the first. Where the
    /// cursor comes to lie above the window, the window goes back to the top.
    pub open spec fn move_down(self) -> Browser {
        if self.entries.len() == 0 {
            self
        } else {
            let selected = if self.selected < self.entries.len() - 1 {
                self.selected + 1
            } else {
                0
            };
            let scroll = if selected >= self.scroll + self.max_visible {
                selected - self.max_visible + 1
            } else if selected < self.scroll {
                0
            } else {
                self.scroll
            };
            Browser { selected, scroll, ..self }
        }
    }

    /// The rows replaced by what the directory lists as. A cursor that has
    /// come to lie behind the last row goes back to the top with the window.
    pub open spec fn refresh_entries(
        self,
        parent: Option<Seq<char>>,
        listing: Option<Seq<Row>>,
    ) -> Browser {
        let entries = listed(parent, listing, self.show_hidden);
        if self.selected >= entries.len() && entries.len() > 0 {
            Browser { entries, selected: 0, scroll: 0, ..self }
        } else {
            Browser { entries, ..self }
        }
    }

    /// The browser moved into the directory `dir`, cursor and window at the
    /// top. The rows are those of the old directory until it is refreshed.
    pub open spec fn opened(self, dir: Seq<char>) -> Browser {
        Browser { current_dir: dir, selected: 0, scroll: 0, ..self }
    }

    /// The browser after entering the selected row: moved into it where it
    /// is a directory, as it is otherwise.
    pub open spec fn enter(self) -> Browser {
        if self.entries.len() > 0 && self.entries[self.selected].2 {
            self.opened(self.entries[self.selected].1)
        } else {
            self
        }
    }

    /// The path of the selected row, where there is one.
    pub open spec fn selected_path(self) -> Option<Seq<char>> {
        if self.entries.len() == 0 {
            None
        } else {
            Some(self.entries[self.selected].1)
        }
    }
}

/// Tells whether `a` comes no later than `b` in the order of texts.
pub fn text_no_later(a: &Vec<char>, b: &Vec<char>) -> (le: bool)
    ensures
        le == text_le(a@, b@),
{
    let mut i: usize = 0;
    assert(a@.skip(0) =~= a@ && b@.skip(0) =~= b@);
    while i < a.len() && i < b.len()
        invariant
            i <= a.len(),
            i <= b.len(),
            text_le(a@, b@) == text_le(a@.skip(i as int), b@.skip(i as int)),
        decreases a.len() - i,
    {
        assert(a@.skip(i as int).drop_first() =~= a@.skip(i + 1));
        assert(b@.skip(i as int).drop_first() =~= b@.skip(i + 1));
        if a[i] != b[i] {
            return a[i] < b[i];
        }
        i = i + 1;
    }
    i == a.len()
}

/// Skipping the leading rows whose keys come no later than `key` does not
/// change where `key` goes, counted from there.
pub proof fn lemma_insert_position_skip(
    sorted: Seq<Row>,
    key: Seq<char>,
    count: int,
)
    requires
        0 <= count <= sorted.len(),
        forall|k: int| 0 <= k < count ==> text_le(name_key(#[trigger] sorted[k]), key),
    ensures
        insert_position(sorted, key) == count + insert_position(sorted.skip(count), key),
    decreases count,
{
    if count == 0 {
        assert(sorted.skip(0) =~= sorted);
    } else {
        let rest = sorted.drop_first();
        assert forall|k: int| 0 <= k < count - 1 implies text_le(
            name_key(#[trigger] rest[k]),
            key,
        ) by {
            assert(rest[k] == sorted[k + 1]);
        }
        lemma_insert_position_skip(rest, key, count - 1);
        assert(rest.skip(count - 1) =~= sorted.skip(count));
        assert(text_le(name_key(sorted[0]), key));
    }
}

/// Puts a list of entries in the order of their names, without regard to
/// case; entries whose names differ in case only stay in the order they came
/// in.
pub fn sort_by_name(items: &Vec<FileEntry>) -> (sorted: Vec<FileEntry>)
    ensures
        rows(sorted@) == sorted_by_name(rows(items@)),
{
    let mut sorted: Vec<FileEntry> = Vec::new();
    let mut keys: Vec<Vec<char>> = Vec::new();
    let mut i: usize = 0;
    assert(rows(items@).take(0) =~= Seq::empty());
    assert(rows(sorted@) =~= Seq::empty());
    while i < items.len()
        invariant
            i <= items.len(),
            rows(sorted@) == sorted_by_name(rows(items@).take(i as int)),
            keys@.len() == sorted@.len(),
            forall|k: int|
                0 <= k < keys@.len() ==> (#[trigger] keys@[k])@ == name_key(rows(sorted@)[k]),
        decreases items.len() - i,
    {
        let entry = items[i].clone();
        let key = chars_of(to_lowercase(entry.name.as_str()).as_str());
        let ghost before = rows(sorted@);
        let ghost row = entry@;
        let mut at: usize = 0;
        while at < sorted.len() && text_no_later(&keys[at], &key)
            invariant
                at <= sorted.len(),
                keys@.len() == sorted@.len(),
                before == rows(sorted@),
                forall|k: int|
                    0 <= k < keys@.len() ==> (#[trigger] keys@[k])@ == name_key(before[k]),
                forall|k: int| 0 <= k < at ==> text_le(name_key(#[trigger] before[k]), key@),
            decreases sorted.len() - at,
        {
            at = at + 1;
        }
        proof {
            lemma_insert_position_skip(before, key@, at as int);
            if at < sorted.len() {
                assert(before.skip(at as int)[0] == before[at as int]);
            }
            assert(insert_position(before, key@) == at);
            assert(rows(items@).take(i + 1).drop_last() =~= rows(items@).take(i as int));
            assert(rows(items@).take(i + 1).last() == row);
        }
        sorted.insert(at, entry);
        keys.insert(at, key);
        assert(rows(sorted@) =~= before.insert(at as int, row));
        i = i + 1;
    }
    assert(rows(items@).take(items.len() as int) =~= rows(items@));
    sorted
}

/// Tells whether a name is hidden.
pub fn name_is_hidden(name: &str) -> (hidden: bool)
    ensures
        hidden == is_hidden(name@),
{
    let chars = chars_of(name);
    proof {
        reveal_strlit("..");
    }
    if chars.len() == 0 || chars[0] != '.' {
        return false;
    }
    let parent = chars.len() == 2 && chars[1] == '.';
    assert(parent == (name@ =~= PARENT_NAME@));
    !parent
}

/// The shown directories, or the shown files, of a listing, in the order of
/// the listing.
pub fn shown_entries(
    listing: &Vec<FileEntry>,
    show_hidden: bool,
    directories: bool,
) -> (shown: Vec<FileEntry>)
    ensures
        rows(shown@) == shown_rows(rows(listing@), show_hidden, directories),
{
    let mut shown: Vec<FileEntry> = Vec::new();
    let mut i: usize = 0;
    let ghost keep = is_shown(show_hidden, directories);
    assert(rows(listing@).take(0) =~= Seq::empty());
    assert(rows(shown@) =~= Seq::empty());
    reveal(Seq::filter);
    while i < listing.len()
        invariant
            i <= listing.len(),
            keep == is_shown(show_hidden, directories),
            rows(shown@) == rows(listing@).take(i as int).filter(keep),
        decreases listing.len() - i,
    {
        let entry = &listing[i];
        proof {
            let done = rows(listing@).take(i as int);
            done.lemma_filter_push(entry@, keep);
            assert(done.push(entry@) =~= rows(listing@).take(i + 1));
        }
        let hidden = !show_hidden && name_is_hidden(entry.name.as_str());
        if !hidden && entry.is_dir == directories {
            let ghost before = rows(shown@);
            shown.push(entry.clone());
            assert(rows(shown@) =~= before.push(entry@));
        }
        i = i + 1;
    }
    assert(rows(listing@).take(listing.len() as int) =~= rows(listing@));
    shown
}

/// The browser over one directory.
#[derive(Debug)]
pub struct FileBrowser {
    pub current_dir: String,
    pub entries: Vec<FileEntry>,
    pub selected: usize,
    pub scroll: usize,
    pub max_visible: usize,
    pub show_hidden: bool,
}

impl View for FileBrowser {
    type V = Browser;

    open spec fn view(&self) -> Browser {
        Browser {
            current_dir: self.current_dir@,
            entries: rows(self.entries@),
            selected: self.selected as int,
            scroll: self.scroll as int,
            max_visible: self.max_visible as int,
            show_hidden: self.show_hidden,
        }
    }
}

/// The listing of a directory, as a value.
pub open spec fn listing_rows(listing: Option<Vec<FileEntry>>) -> Option<Seq<Row>> {
    match listing {
        Some(found) => Some(rows(found@)),
        None => None,
    }
}

/// The path of a parent directory, as a value.
pub open spec fn parent_path(parent: Option<String>) -> Option<Seq<char>> {
    match parent {
        Some(path) => Some(path@),
        None => None,
    }
}

/// The directory a browser starts in: the configured one where it is an
/// existing directory, else the home directory, else `.`.
pub open spec fn default_directory(
    configured: Option<Seq<char>>,
    configured_is_dir: bool,
    home: Option<Seq<char>>,
) -> Seq<char> {
    match configured {
        Some(dir) if configured_is_dir => dir,
        _ => match home {
            Some(dir) => dir,
            None => "."@,
        },
    }
}

impl FileBrowser {
    /// A browser in `current_dir`, showing what the directory lists as, with
    /// hidden rows left out and the cursor at the top.
    pub fn new(
        current_dir: String,
        parent: Option<String>,
        listing: Option<Vec<FileEntry>>,
    ) -> (browser: FileBrowser)
        ensures
            browser@ == (Browser {
                current_dir: current_dir@,
                entries: listed(parent_path(parent), listing_rows(listing), false),
                selected: 0,
                scroll: 0,
                max_visible: MAX_VISIBLE as int,
                show_hidden: false,
            }),
            browser@.valid(),
            browser@.in_window(),
    {
        let mut browser = FileBrowser {
            current_dir,
            entries: Vec::new(),
            selected: 0,
            scroll: 0,
            max_visible: MAX_VISIBLE,
            show_hidden: false,
        };
        browser.refresh_entries(parent, listing);
        browser
    }

    /// Picks the directory a browser starts in: the configured one where it
    /// is an existing directory, else the home directory, else `.`.
    pub fn get_default_directory(
        configured: Option<&str>,
        configured_is_dir: bool,
        home: Option<&str>,
    ) -> (dir: String)
        ensures
            dir@ == default_directory(
                match configured {
                    Some(text) => Some(text@),
                    None => None,
                },
                configured_is_dir,
                match home {
                    Some(text) => Some(text@),
                    None => None,
                },
            ),
    {
        if let Some(dir) = configured {
            if configured_is_dir {
                return dir.to_owned();
            }
        }
        match home {
            Some(dir) => dir.to_owned(),
            None => String::from_str("."),
        }
    }

    /// Moves the browser back to its starting directory, cursor and window at
    /// the top, and shows what that directory lists as.
    pub fn reset(
        &mut self,
        default_dir: String,
        parent: Option<String>,
        listing: Option<Vec<FileEntry>>,
    )
        ensures
            final(self)@ == old(self)@.opened(default_dir@).refresh_entries(
                parent_path(parent),
                listing_rows(listing),
            ),
            final(self)@.valid(),
    {
        self.current_dir = default_dir;
        self.selected = 0;
        self.scroll = 0;
        self.refresh_entries(parent, listing);
    }

    /// Shows what the current directory lists as: `parent` is its parent
    /// directory, if it has one, and `listing` what was found in it, or
    /// nothing where it could not be read.
    pub fn refresh_entries(&mut self, parent: Option<String>, listing: Option<Vec<FileEntry>>)
        ensures
            final(self)@ == old(self)@.refresh_entries(parent_path(parent), listing_rows(listing)),
            old(self)@.selected == 0 || old(self)@.valid() ==> final(self)@.valid(),
    {
        self.entries.clear();
        if let Some(path) = parent {
            self.entries.push(
                FileEntry { name: String::from_str(PARENT_NAME), path, is_dir: true },
            );
        }
        assert(rows(self.entries@) =~= parent_rows(parent_path(parent)));
        if let Some(found) = listing {
            let mut dirs = sort_by_name(&shown_entries(&found, self.show_hidden, true));
            let mut files = sort_by_name(&shown_entries(&found, self.show_hidden, false));
            let ghost head = rows(self.entries@);
            let ghost middle = rows(dirs@);
            let ghost tail = rows(files@);
            self.entries.append(&mut dirs);
            self.entries.append(&mut files);
            assert(rows(self.entries@) =~= head + middle + tail);
        }
        if self.selected >= self.entries.len() && self.entries.len() > 0 {
            self.selected = 0;
            self.scroll = 0;
        }
    }

    /// Moves the cursor one row up; from the first row to the last. The
    /// window follows the cursor.
    pub fn move_up(&mut self)
        requires
            old(self)@.valid(),
        ensures
            final(self)@ == old(self)@.move_up(),
            final(self)@.valid(),
            old(self)@.in_window() ==> final(self)@.in_window(),
    {
        if self.entries.len() == 0 {
            return ;
        }
        if self.selected > 0 {
            self.selected = self.selected - 1;
        } else {
            self.selected = self.entries.len() - 1;
        }
        if self.selected < self.scroll {
            self.scroll = self.selected;
        } else if self.selected as u128 >= self.scroll as u128 + self.max_visible as u128 {
            self.scroll = self.selected - self.max_visible + 1;
        }
    }

    /// Moves the cursor one row down; from the last row to the first. The
    /// window follows the cursor.
    pub fn move_down(&mut self)
        requires
            old(self)@.valid(),
        ensures
            final(self)@ == old(self)@.move_down(),
            final(self)@.valid(),
            old(self)@.in_window() ==> final(self)@.in_window(),
    {
        if self.entries.len() == 0 {
            return ;
        }
        if self.selected < self.entries.len() - 1 {
            self.selected = self.selected + 1;
        } else {
            self.selected = 0;
        }
        if self.selected as u128 >= self.scroll as u128 + self.max_visible as u128 {
            self.scroll = self.selected - self.max_visible + 1;
        } else if self.selected < self.scroll {
            self.scroll = 0;
        }
    }

    /// Enters the selected row. A directory becomes the current directory,
    /// with cursor and window at the top, and is to be listed anew; a file
    /// is picked, and the browser stays as it is.
    pub fn enter(&mut self) -> (entered: Entered)
        requires
            old(self)@.valid(),
        ensures
            final(self)@ == old(self)@.enter(),
            match entered {
                Entered::Nothing => old(self)@.entries.len() == 0,
                Entered::Directory(path) => old(self)@.entries.len() > 0 && old(
                    self,
                )@.entries[old(self)@.selected].2 && path@ == old(self)@.entries[old(
                    self,
                )@.selected].1,
                Entered::File(path) => old(self)@.entries.len() > 0 && !old(self)@.entries[old(
                    self,
                )@.selected].2 && path@ == old(self)@.entries[old(self)@.selected].1,
            },
    {
        if self.entries.len() == 0 {
            return Entered::Nothing;
        }
        let path = self.entries[self.selected].path.clone();
        if self.entries[self.selected].is_dir {
            self.current_dir = path.clone();
            self.selected = 0;
            self.scroll = 0;
            Entered::Directory(path)
        } else {
            Entered::File(path)
        }
    }

    /// The path of the selected row, where there is one.
    pub fn get_selected_path(&self) -> (path: Option<String>)
        requires
            self@.valid(),
        ensures
            match path {
                Some(text) => self@.selected_path() == Some(text@),
                None => self@.selected_path() is None,
            },
    {
        if self.entries.len() == 0 {
            None
        } else {
            Some(self.entries[self.selected].path.clone())
        }
    }

    /// Tells whether the cursor stands on a row, where there is one. Every
    /// operation keeps it so.
    pub fn cursor_is_valid(&self) -> (valid: bool)
        ensures
            valid == self@.valid(),
    {
        self.entries.len() == 0 || self.selected < self.entries.len()
    }

    /// The row of the window that the cursor stands in, counted from the
    /// top of the window; the top row where the cursor lies above it.
    pub fn cursor_row(&self) -> (row: usize)
        ensures
            row == if self@.selected >= self@.scroll {
                self@.selected - self@.scroll
            } else {
                0
            },
    {
        if self.selected >= self.scroll {
            self.selected - self.scroll
        } else {
            0
        }
    }

    /// The directory the browser is in.
    pub fn get_current_dir(&self) -> (dir: &str)
        ensures
            dir@ == self@.current_dir,
    {
        self.current_dir.as_str()
    }

    /// Turns the showing of hidden rows on or off. The rows change with the
    /// next refresh.
    pub fn toggle_hidden_files(&mut self)
        ensures
            final(self)@ == (Browser { show_hidden: !old(self)@.show_hidden, ..old(self)@ }),
    {
        self.show_hidden = !self.show_hidden;
    }
}

/// Whether the rows stand in the order of their names: none comes before a
/// row whose key comes strictly earlier.
pub open spec fn ordered_by_name(rows: Seq<Row>) -> bool {
    forall|i: int, j: int|
        0 <= i < j < rows.len() ==> text_le(name_key(#[trigger] rows[i]), name_key(#[trigger] rows[j]))
}

/// Of two texts, one comes no later than the other.
pub proof fn lemma_text_le_total(a: Seq<char>, b: Seq<char>)
    ensures
        text_le(a, b) || text_le(b, a),
    decreases a.len(),
{
    if a.len() > 0 && b.len() > 0 && a[0] == b[0] {
        lemma_text_le_total(a.drop_first(), b.drop_first());
    }
}

/// The order of texts is transitive.
pub proof fn lemma_text_le_transitive(a: Seq<char>, b: Seq<char>, c: Seq<char>)
    requires
        text_le(a, b),
        text_le(b, c),
    ensures
        text_le(a, c),
    decreases a.len(),
{
    if a.len() > 0 && b.len() > 0 && c.len() > 0 && a[0] == b[0] && b[0] == c[0] {
        lemma_text_le_transitive(a.drop_first(), b.drop_first(), c.drop_first());
    }
}

/// Where a key goes: every row before that place has a key that comes no
/// later, and the row at that place, if there is one, a key that comes
/// later.
pub proof fn lemma_insert_position(sorted: Seq<Row>, key: Seq<char>)
    ensures
        insert_position(sorted, key) <= sorted.len(),
        forall|k: int|
            0 <= k < insert_position(sorted, key) ==> text_le(name_key(#[trigger] sorted[k]), key),
        insert_position(sorted, key) < sorted.len() ==> !text_le(
            name_key(sorted[insert_position(sorted, key) as int]),
            key,
        ),
    decreases sorted.len(),
{
    if sorted.len() == 0 || !text_le(name_key(sorted[0]), key) {
    } else {
        let rest = sorted.drop_first();
        lemma_insert_position(rest, key);
        let at = insert_position(rest, key) as int;
        assert forall|k: int| 0 <= k < at + 1 implies text_le(
            name_key(#[trigger] sorted[k]),
            key,
        ) by {
            if k > 0 {
                assert(sorted[k] == rest[k - 1]);
            }
        }
        if at < rest.len() {
            assert(sorted[at + 1] == rest[at]);
        }
    }
}

/// Sorting puts the rows in the order of their names.
pub proof fn law_sorted_is_ordered(items: Seq<Row>)
    ensures
        ordered_by_name(sorted_by_name(items)),
        sorted_by_name(items).len() == items.len(),
    decreases items.len(),
{
    if items.len() > 0 {
        let before = sorted_by_name(items.drop_last());
        let row = items.last();
        let key = name_key(row);
        let at = insert_position(before, key) as int;
        let after = before.insert(at, row);
        law_sorted_is_ordered(items.drop_last());
        lemma_insert_position(before, key);
        assert forall|i: int, j: int| 0 <= i < j < after.len() implies text_le(
            name_key(#[trigger] after[i]),
            name_key(#[trigger] after[j]),
        ) by {
            if j < at {
                assert(after[i] == before[i] && after[j] == before[j]);
            } else if j == at {
                assert(after[i] == before[i] && after[j] == row);
            } else if i == at {
                assert(after[j] == before[j - 1]);
                lemma_text_le_total(name_key(before[at]), key);
                if j - 1 > at {
                    assert(text_le(name_key(before[at]), name_key(before[j - 1])));
                    lemma_text_le_transitive(key, name_key(before[at]), name_key(before[j - 1]));
                }
            } else if i < at {
                assert(after[i] == before[i] && after[j] == before[j - 1]);
            } else {
                assert(after[i] == before[i - 1] && after[j] == before[j - 1]);
            }
        }
    }
}

/// Sorting neither drops a row nor makes one up: the sorted rows are the
/// given rows, each as often as it was given.
pub proof fn law_sorted_is_permutation(items: Seq<Row>)
    ensures
        sorted_by_name(items).to_multiset() == items.to_multiset(),
    decreases items.len(),
{
    broadcast use vstd::seq_lib::group_to_multiset_ensures;

    if items.len() > 0 {
        let before = sorted_by_name(items.drop_last());
        let row = items.last();
        let at = insert_position(before, name_key(row)) as int;
        law_sorted_is_permutation(items.drop_last());
        lemma_insert_position(before, name_key(row));
        assert(items.drop_last().push(row) =~= items);
        assert(before.insert(at, row).to_multiset() =~= before.to_multiset().insert(row));
    }
}

} // verus!