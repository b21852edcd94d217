use auth::auth_core::entry::{clone_entries, Entries, Entry};
use auth::AuthError;

fn entry(name: &str, secret: &str) -> Entry {
    Entry { name: name.to_string(), secret: secret.to_string() }
}

fn pairs(entries: &[Entry]) -> Vec<(String, String)> {
    entries.iter().map(|e| (e.name.clone(), e.secret.clone())).collect()
}

#[test]
fn a_document_lists_the_entries_in_order() {
    let vault = Entries {
        entries: vec![entry("GitHub", "JBSWY3DPEHPK3PXP"), entry("Mail", "MFRGGZDF")],
    };
    let text = vault.to_document().unwrap();
    assert_eq!(
        text,
        "[[entries]]\nname = \"GitHub\"\nsecret = \"JBSWY3DPEHPK3PXP\"\n\n[[entries]]\nname = \"Mail\"\nsecret = \"MFRGGZDF\"\n"
    );
}

#[test]
fn the_document_of_an_empty_vault() {
    let vault = Entries { entries: vec![] };
    assert_eq!(vault.to_document().unwrap(), "entries = []\n");
}

#[test]
fn a_document_is_read_back_in_order() {
    let text = "[[entries]]\nname = \"b\"\nsecret = \"2\"\n\n[[entries]]\nname = \"a\"\nsecret = \"1\"\n";
    let vault = Entries::from_document(text).unwrap();
    assert_eq!(
        pairs(&vault.entries),
        vec![("b".to_string(), "2".to_string()), ("a".to_string(), "1".to_string())]
    );
}

#[test]
fn an_inline_document_is_read_too() {
    let text = "entries = [ { name = \"GitHub\", secret = \"JBSWY3DPEHPK3PXP\" } ]";
    let vault = Entries::from_document(text).unwrap();
    assert_eq!(pairs(&vault.entries), vec![("GitHub".to_string(), "JBSWY3DPEHPK3PXP".to_string())]);
}

#[test]
fn other_keys_are_passed_over() {
    let text = "title = \"x\"\n\n[[entries]]\nname = \"a\"\nsecret = \"1\"\nnote = \"kept out\"\n";
    let vault = Entries::from_document(text).unwrap();
    assert_eq!(pairs(&vault.entries), vec![("a".to_string(), "1".to_string())]);
}

#[test]
fn what_is_no_document_of_entries_fails_to_parse() {
    let cases = [
        "",
        "not toml at all [",
        "entries = 5",
        "entries = [1, 2]",
        "[[entries]]\nname = \"a\"\n",
        "[[entries]]\nsecret = \"1\"\n",
        "[[entries]]\nname = 5\nsecret = \"1\"\n",
        "[entries]\nname = \"a\"\nsecret = \"1\"\n",
        "other = []",
    ];
    for text in cases {
        assert!(
            matches!(Entries::from_document(text), Err(AuthError::ParseError)),
            "parsed: {:?}",
            text
        );
    }
}

#[test]
fn writing_then_reading_gives_the_entries_back() {
    let vaults = vec![
        vec![],
        vec![entry("GitHub", "JBSWY3DPEHPK3PXP")],
        vec![entry("a", "1"), entry("a", "1"), entry("b", "2")],
        vec![entry("quote \" and \\ slash", "line\nbreak"), entry("tab\there", "'single'")],
        vec![entry("\u{e9}t\u{e9} \u{1f511}", "  spaced  "), entry("#hash = [x]", "'''")],
    ];
    for entries in vaults {
        let expected = pairs(&entries);
        let text = Entries { entries }.to_document().unwrap();
        let back = Entries::from_document(&text).unwrap();
        assert_eq!(pairs(&back.entries), expected);
    }
}

#[test]
fn cloning_a_list_keeps_every_entry() {
    let entries = vec![entry("a", "1"), entry("b", "2"), entry("c", "3")];
    let copy = clone_entries(&entries);
    assert_eq!(pairs(&copy), pairs(&entries));
    assert_eq!(pairs(&clone_entries(&[].to_vec())), vec![]);
}
