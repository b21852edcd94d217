//! Entries of the vault.

use crate::auth_core::document::{document_of, entries_of, read_entries, write_entries};
use crate::auth_core::totp::{
    generate_totp, generate_totp_at, is_code, secret_key, totp_at, TOTP_DIGITS, TOTP_PERIOD,
};
use crate::utils::error::{AuthError, AuthResult};
use vstd::prelude::*;
use vstd::string::StringExecFns;

verus! {

/// What is shown in place of a code for a secret that gives none.
pub const INVALID_LABEL: &'static str = "Invalid";

/// One credential: a display name and a base32 secret.
#[derive(Debug)]
pub struct Entry {
    pub name: String,
    pub secret: String,
}

/// The entries of a vault, in their order, as the stored document holds them.
#[derive(Debug)]
pub struct Entries {
    pub entries: Vec<Entry>,
}

/// An entry as a value: its name and its secret.
pub type EntryText = (Seq<char>, Seq<char>);

impl View for Entry {
    type V = EntryText;

    /// The name and the secret, as texts.
    open spec fn view(&self) -> EntryText {
        (self.name@, self.secret@)
    }
}

impl Clone for Entry {
    fn clone(&self) -> (copy: Self)
        ensures
            copy@ == self@,
    {
        Entry { name: self.name.clone(), secret: self.secret.clone() }
    }
}

/// The names and secrets of a list of entries, in order.
pub open spec fn entries_view(entries: Seq<Entry>) -> Seq<EntryText> {
    entries.map_values(|entry: Entry| entry@)
}

impl View for Entries {
    type V = Seq<EntryText>;

    open spec fn view(&self) -> Seq<EntryText> {
        entries_view(self.entries@)
    }
}

/// What is shown for `secret` at the second `now`: its code and the seconds
/// the code stays current, or the invalid label and no seconds.
pub open spec fn display_at(secret: Seq<char>, now: u64) -> (Seq<char>, u64) {
    match totp_at(secret, now) {
        Ok(shown) => shown,
        Err(_) => (INVALID_LABEL@, 0),
    }
}

/// Copies a list of entries.
pub fn clone_entries(entries: &Vec<Entry>) -> (copy: Vec<Entry>)
    ensures
        entries_view(copy@) == entries_view(entries@),
{
    let mut copy: Vec<Entry> = Vec::new();
    let mut i: usize = 0;
    while i < entries.len()
        invariant
            i <= entries.len(),
            copy@.len() == i,
            forall|k: int| 0 <= k < i ==> (#[trigger] copy@[k])@ == entries@[k]@,
        decreases entries.len() - i,
    {
        copy.push(entries[i].clone());
        i = i + 1;
    }
    assert(entries_view(copy@) =~= entries_view(entries@));
    copy
}

impl Entry {
    /// The code of this entry at the second `now` and the seconds it stays
    /// current; `("Invalid", 0)` where the secret gives no code.
    pub fn generate_totp_with_time_at(&self, now: u64) -> (shown: (String, u64))
        ensures
            (shown.0@, shown.1) == display_at(self.secret@, now),
            secret_key(self.secret@) is Some ==> is_code(shown.0@, TOTP_DIGITS as nat) && 1
                <= shown.1 <= TOTP_PERIOD,
            secret_key(self.secret@) is None ==> shown.0@ == INVALID_LABEL@ && shown.1 == 0,
    {
        match generate_totp_at(self.secret.as_str(), now) {
            Ok(result) => result,
            Err(_) => (String::from_str(INVALID_LABEL), 0),
        }
    }

    /// The current code of this entry and the seconds it stays current. No
    /// failure reaches the caller: a secret that gives no code, and a clock
    /// that cannot be read, both show as `("Invalid", 0)`.
    pub fn generate_totp_with_time(&self) -> (shown: (String, u64))
        ensures
            secret_key(self.secret@) is None ==> shown.0@ == INVALID_LABEL@ && shown.1 == 0,
            (shown.0@ == INVALID_LABEL@ && shown.1 == 0) || (exists|now: u64|
                (shown.0@, shown.1) == display_at(self.secret@, now) && is_code(
                    shown.0@,
                    TOTP_DIGITS as nat,
                ) && 1 <= shown.1 <= TOTP_PERIOD),
    {
        match generate_totp(self.secret.as_str()) {
            Ok(result) => {
                proof {
                    let now = choose|now: u64|
                        totp_at(self.secret@, now) == Ok::<(Seq<char>, u64), Seq<char>>(
                            (result.0@, result.1),
                        );
                    assert((result.0@, result.1) == display_at(self.secret@, now));
                }
                result
            },
            Err(_) => (String::from_str(INVALID_LABEL), 0),
        }
    }
}

impl Entries {
    /// Writes the entries as a document.
    ///
    /// Fails with `SerializeError` where the serializer gives no text.
    pub fn to_document(&self) -> (text: AuthResult<String>)
        ensures
            match text {
                Ok(document) => document_of(self@) == Some(document@),
                Err(AuthError::SerializeError) => document_of(self@) is None,
                Err(_) => false,
            },
    {
        match write_entries(&self.entries) {
            Some(document) => Ok(document),
            None => Err(AuthError::SerializeError),
        }
    }

    /// Reads the entries of a document.
    ///
    /// Fails with `ParseError` where the text is no document of entries.
    pub fn from_document(text: &str) -> (parsed: AuthResult<Entries>)
        ensures
            match parsed {
                Ok(document) => entries_of(text@) == Some(document@),
                Err(AuthError::ParseError) => entries_of(text@) is None,
                Err(_) => false,
            },
    {
        match read_entries(text) {
            Some(entries) => Ok(Entries { entries }),
            None => Err(AuthError::ParseError),
        }
    }
}

} // verus!
