//! The document that stores the entries: what is written, and what is read
//! back as entries.
//!
//! The document is a TOML text. Writing and parsing TOML is left to the
//! `toml` crate; which keys a document of entries has, and what in a parsed
//! document counts as an entry, is settled here.

use crate::auth_core::entry::{entries_view, Entry, EntryText};
use toml::{Table, Value};
use vstd::prelude::*;
use vstd::string::StringExecFns;

verus! {

/// The key under which a document lists the entries.
pub const ENTRIES_KEY: &'static str = "entries";

/// The key of an entry's name.
pub const NAME_KEY: &'static str = "name";

/// The key of an entry's secret.
pub const SECRET_KEY: &'static str = "secret";

/// The value under a key of a row: a text, or nothing where the value is of
/// another kind.
pub type Field = Option<String>;

/// An item of a list: the keys of a table with their values, or nothing
/// where the item is no table.
pub type Row = Option<Vec<(String, Field)>>;

/// The value under a key of a document: the items of a list, or nothing
/// where the value is no list.
pub type Item = Option<Vec<Row>>;

/// A field, as a value.
pub type FieldView = Option<Seq<char>>;

/// A row, as a value.
pub type RowView = Option<Seq<(Seq<char>, FieldView)>>;

/// An item, as a value.
pub type ItemView = Option<Seq<RowView>>;

/// A parsed document, as a value: its keys with their values.
pub type DocumentView = Seq<(Seq<char>, ItemView)>;

/// A row to be written, as a value: its keys with their texts.
pub type TextRow = Seq<(Seq<char>, Seq<char>)>;

/// A field, as a value.
pub open spec fn field_view(field: Field) -> FieldView {
    match field {
        Some(text) => Some(text@),
        None => None,
    }
}

/// A key of a row with its value, as a value.
pub open spec fn pair_view(pair: (String, Field)) -> (Seq<char>, FieldView) {
    (pair.0@, field_view(pair.1))
}

/// The keys of a row with their values, as values.
pub open spec fn pairs_view(pairs: Seq<(String, Field)>) -> Seq<(Seq<char>, FieldView)> {
    pairs.map_values(|pair: (String, Field)| pair_view(pair))
}

/// A row, as a value.
pub open spec fn row_view(row: Row) -> RowView {
    match row {
        Some(pairs) => Some(pairs_view(pairs@)),
        None => None,
    }
}

/// The rows of a list, as values.
pub open spec fn rows_view(rows: Seq<Row>) -> Seq<RowView> {
    rows.map_values(|row: Row| row_view(row))
}

/// An item, as a value.
pub open spec fn item_view(item: Item) -> ItemView {
    match item {
        Some(rows) => Some(rows_view(rows@)),
        None => None,
    }
}

/// A parsed document, as a value.
pub open spec fn document_view(document: Seq<(String, Item)>) -> DocumentView {
    document.map_values(|pair: (String, Item)| (pair.0@, item_view(pair.1)))
}

/// A row to be written, as a value.
pub open spec fn text_row_view(row: Vec<(String, String)>) -> TextRow {
    row@.map_values(|pair: (String, String)| (pair.0@, pair.1@))
}

/// The rows to be written, as values.
pub open spec fn text_rows_view(rows: Seq<Vec<(String, String)>>) -> Seq<TextRow> {
    rows.map_values(|row: Vec<(String, String)>| text_row_view(row))
}

/// What parsing `text` as a TOML table gives: the keys of the table with
/// their values, or nothing where `text` is no TOML document. Of a value
/// that is an array the items are given, and of an item that is a table its
/// keys with their values, of which those that are strings are given.
pub uninterp spec fn toml_parsed(text: Seq<char>) -> Option<
    Seq<(Seq<char>, Option<Seq<Option<Seq<(Seq<char>, Option<Seq<char>>)>>>>)>,
>;

/// What `toml::to_string_pretty` returns for a table with the single key
/// `list`, an array of one table per row, each with the keys and string
/// values of the row: the document text, or nothing where serialization
/// fails.
pub uninterp spec fn toml_written(
    list: Seq<char>,
    rows: Seq<Seq<(Seq<char>, Seq<char>)>>,
) -> Option<Seq<char>>;

/// `str::parse` into a `toml::Table`, handed out as plain values: each key
/// with, for a `Value::Array`, its items, and for each item that is a
/// `Value::Table` its keys with, for a `Value::String`, the text. Nothing is
/// looked up and nothing left out.
#[verifier::external_body]
fn toml_parse(text: &str) -> (parsed: Option<Vec<(String, Item)>>)
    ensures
        match parsed {
            Some(document) => toml_parsed(text@) == Some(document_view(document@)),
            None => toml_parsed(text@) is None,
        },
{
    let field = |value: Value| match value {
        Value::String(text) => Some(text),
        _ => None,
    };
    let row = |item: Value| match item {
        Value::Table(table) => Some(table.into_iter().map(|(k, v)| (k, field(v))).collect()),
        _ => None,
    };
    let item = |value: Value| match value {
        Value::Array(items) => Some(items.into_iter().map(row).collect()),
        _ => None,
    };
    let table = text.parse::<Table>().ok()?;
    Some(table.into_iter().map(|(k, v)| (k, item(v))).collect())
}

/// `toml::to_string_pretty` on a `Table` with the single key `list`,
/// a `Value::Array` of one `Value::Table` per row, each holding the keys of
/// the row with their texts as `Value::String`.
#[verifier::external_body]
fn toml_write(list: &str, rows: &Vec<Vec<(String, String)>>) -> (text: Option<String>)
    ensures
        match text {
            Some(document) => toml_written(list@, text_rows_view(rows@)) == Some(document@),
            None => toml_written(list@, text_rows_view(rows@)) is None,
        },
{
    let pair = |(k, v): &(String, String)| (k.clone(), Value::String(v.clone()));
    let items = rows.iter().map(|row| Value::Table(row.iter().map(pair).collect())).collect();
    let mut document = Table::new();
    document.insert(list.to_string(), Value::Array(items));
    toml::to_string_pretty(&document).ok()
}

/// The row that an entry is written as: its name and its secret, each under
/// its key.
pub open spec fn entry_row(entry: EntryText) -> TextRow {
    seq![(NAME_KEY@, entry.0), (SECRET_KEY@, entry.1)]
}

/// The rows that a list of entries is written as.
pub open spec fn entry_rows(entries: Seq<EntryText>) -> Seq<TextRow> {
    entries.map_values(|entry: EntryText| entry_row(entry))
}

/// The document of a list of entries: the text that holds, under the key
/// `entries`, one table per entry with its name and its secret. Nothing
/// where the entries cannot be written down.
pub open spec fn document_of(entries: Seq<EntryText>) -> Option<Seq<char>> {
    toml_written(ENTRIES_KEY@, entry_rows(entries))
}

/// The text under the first of `pairs` that has the key `key`; nothing where
/// no pair has it, or the value under it is no text.
pub open spec fn field_of(pairs: Seq<(Seq<char>, FieldView)>, key: Seq<char>) -> Option<Seq<char>>
    decreases pairs.len(),
{
    if pairs.len() == 0 {
        None
    } else if pairs[0].0 == key {
        pairs[0].1
    } else {
        field_of(pairs.drop_first(), key)
    }
}

/// The items of the list under the first key of `document` that is `key`;
/// nothing where no key is, or the value under it is no list.
pub open spec fn list_of(document: DocumentView, key: Seq<char>) -> ItemView
    decreases document.len(),
{
    if document.len() == 0 {
        None
    } else if document[0].0 == key {
        document[0].1
    } else {
        list_of(document.drop_first(), key)
    }
}

/// The entry that a row stands for: a table with a text under `name` and a
/// text under `secret`; whatever else the table holds is passed over.
/// Nothing where the row is no table, or lacks one of the two texts.
pub open spec fn entry_of(row: RowView) -> Option<EntryText> {
    match row {
        Some(pairs) => match (field_of(pairs, NAME_KEY@), field_of(pairs, SECRET_KEY@)) {
            (Some(name), Some(secret)) => Some((name, secret)),
            _ => None,
        },
        None => None,
    }
}

/// The entries that the rows stand for, in order; nothing where one of the
/// rows stands for none.
pub open spec fn entries_of_rows(rows: Seq<RowView>) -> Option<Seq<EntryText>>
    decreases rows.len(),
{
    if rows.len() == 0 {
        Some(Seq::empty())
    } else {
        match (entry_of(rows[0]), entries_of_rows(rows.drop_first())) {
            (Some(entry), Some(rest)) => Some(seq![entry] + rest),
            _ => None,
        }
    }
}

/// The entries of a parsed document: those of the list under `entries`.
/// Nothing where the document has no such list, or one of its items is no
/// entry.
pub open spec fn entries_in(document: DocumentView) -> Option<Seq<EntryText>> {
    match list_of(document, ENTRIES_KEY@) {
        Some(rows) => entries_of_rows(rows),
        None => None,
    }
}

/// The entries that a text holds, read as a document; nothing where the text
/// is no TOML document or no document of entries.
pub open spec fn entries_of(text: Seq<char>) -> Option<Seq<EntryText>> {
    match toml_parsed(text) {
        Some(document) => entries_in(document),
        None => None,
    }
}

/// The rows that a list of entries is written as.
pub fn rows_of_entries(entries: &Vec<Entry>) -> (rows: Vec<Vec<(String, String)>>)
    ensures
        text_rows_view(rows@) == entry_rows(entries_view(entries@)),
{
    let mut rows: Vec<Vec<(String, String)>> = Vec::new();
    let mut i: usize = 0;
    while i < entries.len()
        invariant
            i <= entries.len(),
            rows@.len() == i,
            forall|k: int| 0 <= k < i ==> text_row_view(#[trigger] rows@[k]) == entry_row(entries@[k]@),
        decreases entries.len() - i,
    {
        let mut row: Vec<(String, String)> = Vec::new();
        row.push((String::from_str(NAME_KEY), entries[i].name.clone()));
        row.push((String::from_str(SECRET_KEY), entries[i].secret.clone()));
        assert(text_row_view(row) =~= entry_row(entries@[i as int]@));
        rows.push(row);
        i = i + 1;
    }
    assert(text_rows_view(rows@) =~= entry_rows(entries_view(entries@)));
    rows
}

/// Writes a list of entries down as a document.
pub fn write_entries(entries: &Vec<Entry>) -> (text: Option<String>)
    ensures
        match text {
            Some(document) => document_of(entries_view(entries@)) == Some(document@),
            None => document_of(entries_view(entries@)) is None,
        },
{
    let rows = rows_of_entries(entries);
    toml_write(ENTRIES_KEY, &rows)
}

/// The text under `key` in a row.
pub fn find_field(pairs: &Vec<(String, Field)>, key: &str) -> (found: Option<String>)
    ensures
        field_view(found) == field_of(pairs_view(pairs@), key@),
{
    let wanted = String::from_str(key);
    let ghost all = pairs_view(pairs@);
    let mut i: usize = 0;
    assert(all.skip(0) =~= all);
    while i < pairs.len()
        invariant
            i <= pairs.len(),
            wanted@ == key@,
            all == pairs_view(pairs@),
            field_of(all, key@) == field_of(all.skip(i as int), key@),
        decreases pairs.len() - i,
    {
        assert(all.skip(i as int)[0] == pair_view(pairs@[i as int]));
        assert(all.skip(i as int).drop_first() =~= all.skip(i + 1));
        if pairs[i].0 == wanted {
            return match &pairs[i].1 {
                Some(text) => Some(text.clone()),
                None => None,
            };
        }
        i = i + 1;
    }
    None
}

/// The entry that a row stands for.
pub fn entry_in_row(row: &Row) -> (entry: Option<Entry>)
    ensures
        match entry {
            Some(found) => entry_of(row_view(*row)) == Some(found@),
            None => entry_of(row_view(*row)) is None,
        },
{
    match row {
        Some(pairs) => match (find_field(pairs, NAME_KEY), find_field(pairs, SECRET_KEY)) {
            (Some(name), Some(secret)) => Some(Entry { name, secret }),
            _ => None,
        },
        None => None,
    }
}

/// The entries that the rows of a list stand for.
pub fn entries_in_rows(rows: &Vec<Row>) -> (entries: Option<Vec<Entry>>)
    ensures
        match entries {
            Some(list) => entries_of_rows(rows_view(rows@)) == Some(entries_view(list@)),
            None => entries_of_rows(rows_view(rows@)) is None,
        },
{
    let ghost all = rows_view(rows@);
    let mut list: Vec<Entry> = Vec::new();
    let mut i: usize = 0;
    assert(all.skip(0) =~= all);
    assert(entries_view(list@) =~= Seq::<EntryText>::empty());
    while i < rows.len()
        invariant
            i <= rows.len(),
            all == rows_view(rows@),
            entries_of_rows(all) == match entries_of_rows(all.skip(i as int)) {
                Some(rest) => Some(entries_view(list@) + rest),
                None => None,
            },
        decreases rows.len() - i,
    {
        assert(all.skip(i as int)[0] == row_view(rows@[i as int]));
        assert(all.skip(i as int).drop_first() =~= all.skip(i + 1));
        let entry = match entry_in_row(&rows[i]) {
            Some(entry) => entry,
            None => { return None; },
        };
        let ghost done = entries_view(list@);
        let ghost added = entry@;
        list.push(entry);
        assert(entries_view(list@) =~= done.push(added));
        assert forall|rest: Seq<EntryText>| done + (seq![added] + rest) == #[trigger] (done.push(
            added,
        ) + rest) by {
            assert(done + (seq![added] + rest) =~= done.push(added) + rest);
        }
        i = i + 1;
    }
    assert(all.skip(rows.len() as int) =~= Seq::<RowView>::empty());
    assert(entries_view(list@) + Seq::<EntryText>::empty() =~= entries_view(list@));
    Some(list)
}

/// The entries of a parsed document.
pub fn entries_in_document(document: &Vec<(String, Item)>) -> (entries: Option<Vec<Entry>>)
    ensures
        match entries {
            Some(list) => entries_in(document_view(document@)) == Some(entries_view(list@)),
            None => entries_in(document_view(document@)) is None,
        },
{
    let wanted = String::from_str(ENTRIES_KEY);
    let ghost all = document_view(document@);
    let mut i: usize = 0;
    assert(all.skip(0) =~= all);
    while i < document.len()
        invariant
            i <= document.len(),
            wanted@ == ENTRIES_KEY@,
            all == document_view(document@),
            list_of(all, ENTRIES_KEY@) == list_of(all.skip(i as int), ENTRIES_KEY@),
        decreases document.len() - i,
    {
        assert(all.skip(i as int)[0] == (document@[i as int].0@, item_view(document@[i as int].1)));
        assert(all.skip(i as int).drop_first() =~= all.skip(i + 1));
        if document[i].0 == wanted {
            return match &document[i].1 {
                Some(rows) => entries_in_rows(rows),
                None => None,
            };
        }
        i = i + 1;
    }
    None
}

/// Reads the entries that a text holds as a document.
pub fn read_entries(text: &str) -> (entries: Option<Vec<Entry>>)
    ensures
        match entries {
            Some(list) => entries_of(text@) == Some(entries_view(list@)),
            None => entries_of(text@) is None,
        },
{
    match toml_parse(text) {
        Some(document) => entries_in_document(&document),
        None => None,
    }
}

/// A written row as a parsed document holds it: every key with its text.
pub open spec fn parsed_row(row: TextRow) -> RowView {
    Some(row.map_values(|pair: (Seq<char>, Seq<char>)| (pair.0, Some(pair.1))))
}

/// Written rows as a parsed document holds them.
pub open spec fn parsed_rows(rows: Seq<TextRow>) -> Seq<RowView> {
    rows.map_values(|row: TextRow| parsed_row(row))
}

/// The parsed document of a table with the single key `list` and the rows
/// `rows`.
pub open spec fn parsed_table(list: Seq<char>, rows: Seq<TextRow>) -> DocumentView {
    seq![(list, Some(parsed_rows(rows)))]
}

/// Whether the TOML text of these rows parses to the table it was written
/// from. This is a property of the `toml` crate alone; nothing here proves
/// it.
pub open spec fn reads_back(list: Seq<char>, rows: Seq<TextRow>) -> bool {
    match toml_written(list, rows) {
        Some(text) => toml_parsed(text) == Some(parsed_table(list, rows)),
        None => true,
    }
}

/// The rows that entries are written as stand for those entries again.
pub proof fn lemma_rows_stand_for_entries(entries: Seq<EntryText>)
    ensures
        entries_of_rows(parsed_rows(entry_rows(entries))) == Some(entries),
    decreases entries.len(),
{
    let rows = parsed_rows(entry_rows(entries));
    if entries.len() > 0 {
        let rest = entries.drop_first();
        lemma_rows_stand_for_entries(rest);
        assert(rows.drop_first() =~= parsed_rows(entry_rows(rest)));
        let pairs = rows[0]->0;
        reveal_strlit("name");
        reveal_strlit("secret");
        assert(NAME_KEY@.len() != SECRET_KEY@.len());
        assert(pairs[0] == (NAME_KEY@, Some(entries[0].0)));
        assert(pairs.drop_first()[0] == (SECRET_KEY@, Some(entries[0].1)));
        assert(field_of(pairs, NAME_KEY@) == Some(entries[0].0));
        assert(field_of(pairs.drop_first(), SECRET_KEY@) == Some(entries[0].1));
        assert(entry_of(rows[0]) == Some(entries[0]));
        assert(seq![entries[0]] + rest =~= entries);
    } else {
        assert(entries =~= Seq::<EntryText>::empty());
    }
}

/// Writing entries down and reading the document gives the entries back, in
/// their order, provided the TOML text parses to the table it was written
/// from. What the library adds to the document, and what it looks for in
/// it, agree.
pub proof fn law_entries_read_back(entries: Seq<EntryText>)
    requires
        reads_back(ENTRIES_KEY@, entry_rows(entries)),
        document_of(entries) is Some,
    ensures
        entries_of(document_of(entries)->0) == Some(entries),
{
    lemma_rows_stand_for_entries(entries);
}

} // verus!