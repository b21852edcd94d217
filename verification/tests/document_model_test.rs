use auth::auth_core::document::{
    entries_in_document, entries_in_rows, entry_in_row, find_field, read_entries, rows_of_entries,
    write_entries, Item, Row,
};
use auth::auth_core::entry::Entry;

fn text(value: &str) -> Option<String> {
    Some(value.to_string())
}

fn pair(key: &str, value: Option<String>) -> (String, Option<String>) {
    (key.to_string(), value)
}

fn row(name: &str, secret: &str) -> Row {
    Some(vec![pair("name", text(name)), pair("secret", text(secret))])
}

fn pairs(entries: &[Entry]) -> Vec<(String, String)> {
    entries.iter().map(|e| (e.name.clone(), e.secret.clone())).collect()
}

fn owned(list: &[(&str, &str)]) -> Vec<(String, String)> {
    list.iter().map(|(a, b)| (a.to_string(), b.to_string())).collect()
}

#[test]
fn a_field_is_found_by_its_key() {
    let fields = vec![pair("name", text("a")), pair("count", None), pair("secret", text("1"))];
    assert_eq!(find_field(&fields, "name"), text("a"));
    assert_eq!(find_field(&fields, "secret"), text("1"));
    assert_eq!(find_field(&fields, "count"), None);
    assert_eq!(find_field(&fields, "missing"), None);
    assert_eq!(find_field(&fields, "Name"), None);
    assert_eq!(find_field(&vec![], "name"), None);
}

#[test]
fn a_row_with_a_name_and_a_secret_is_an_entry() {
    let entry = entry_in_row(&row("GitHub", "JBSW")).unwrap();
    assert_eq!(entry.name, "GitHub");
    assert_eq!(entry.secret, "JBSW");
    let entry = entry_in_row(&Some(vec![
        pair("note", text("x")),
        pair("secret", text("s")),
        pair("other", None),
        pair("name", text("n")),
    ]))
    .unwrap();
    assert_eq!(entry.name, "n");
    assert_eq!(entry.secret, "s");
    let entry = entry_in_row(&row("", "")).unwrap();
    assert_eq!(entry.name, "");
}

#[test]
fn a_row_that_lacks_a_text_is_no_entry() {
    assert!(entry_in_row(&None).is_none());
    assert!(entry_in_row(&Some(vec![])).is_none());
    assert!(entry_in_row(&Some(vec![pair("name", text("a"))])).is_none());
    assert!(entry_in_row(&Some(vec![pair("secret", text("1"))])).is_none());
    assert!(entry_in_row(&Some(vec![pair("name", None), pair("secret", text("1"))])).is_none());
    assert!(entry_in_row(&Some(vec![pair("name", text("a")), pair("secret", None)])).is_none());
}

#[test]
fn rows_give_entries_in_order_or_nothing() {
    let rows = vec![row("b", "2"), row("a", "1"), row("b", "2")];
    let entries = entries_in_rows(&rows).unwrap();
    assert_eq!(pairs(&entries), owned(&[("b", "2"), ("a", "1"), ("b", "2")]));
    assert_eq!(pairs(&entries_in_rows(&vec![]).unwrap()), vec![]);
    assert!(entries_in_rows(&vec![row("a", "1"), None]).is_none());
    assert!(entries_in_rows(&vec![None, row("a", "1")]).is_none());
    assert!(entries_in_rows(&vec![row("a", "1"), Some(vec![pair("name", text("x"))])]).is_none());
}

#[test]
fn the_entries_stand_under_their_key() {
    let list: Item = Some(vec![row("a", "1")]);
    let document = vec![("title".to_string(), None), ("entries".to_string(), list.clone())];
    assert_eq!(pairs(&entries_in_document(&document).unwrap()), owned(&[("a", "1")]));
    assert!(entries_in_document(&vec![]).is_none());
    assert!(entries_in_document(&vec![("other".to_string(), list.clone())]).is_none());
    assert!(entries_in_document(&vec![("Entries".to_string(), list)]).is_none());
    assert!(entries_in_document(&vec![("entries".to_string(), None)]).is_none());
    let empty = vec![("entries".to_string(), Some(vec![]))];
    assert!(entries_in_document(&empty).unwrap().is_empty());
}

#[test]
fn entries_are_written_as_rows_of_name_and_secret() {
    let entries = vec![
        Entry { name: "GitHub".to_string(), secret: "JBSW".to_string() },
        Entry { name: "".to_string(), secret: "x".to_string() },
    ];
    assert_eq!(
        rows_of_entries(&entries),
        vec![owned(&[("name", "GitHub"), ("secret", "JBSW")]), owned(&[("name", ""), ("secret", "x")])]
    );
    assert!(rows_of_entries(&vec![]).is_empty());
}

#[test]
fn a_written_document_is_read_back() {
    let entries = vec![
        Entry { name: "GitHub".to_string(), secret: "JBSWY3DPEHPK3PXP".to_string() },
        Entry { name: "Mail \"home\"".to_string(), secret: "MFRGG\nZDF".to_string() },
    ];
    let text = write_entries(&entries).unwrap();
    assert!(text.starts_with("[[entries]]\nname = \"GitHub\"\nsecret = \"JBSWY3DPEHPK3PXP\"\n"));
    assert_eq!(pairs(&read_entries(&text).unwrap()), pairs(&entries));
    assert_eq!(write_entries(&vec![]).unwrap(), "entries = []\n");
    assert!(read_entries("entries = []\n").unwrap().is_empty());
    assert!(read_entries("").is_none());
    assert!(read_entries("entries = [").is_none());
    assert!(read_entries("entries = \"text\"").is_none());
    assert!(read_entries("[entries]\nname = \"a\"\nsecret = \"1\"\n").is_none());
}
