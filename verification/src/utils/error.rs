//! The kinds of failure the vault can report, and the text shown for each.

use vstd::prelude::*;
use vstd::string::StringExecFns;

verus! {

/// Everything that can go wrong in the vault and around it.
///
/// The last five variants stand for failures of the layers below (the file
/// system, the document format, the envelope); each carries the text of the
/// failure it wraps.
#[derive(Debug)]
pub enum AuthError {
    SaveError,
    ParseError,
    ReadError,
    WriteError,
    SerializeError,
    InvalidKey(String),
    EncryptorError,
    ClipboardError,
    TotpError,
    DecryptError,
    Utf8Error,
    HomeDirError,
    CreateDirError,
    CryptoInitError,
    EmptyEntryError,
    DirectoryError,
    FileNotExistError,
    NoFilenameError,
    EmptyExportError,
    TomlExtError,
    ClipboardSpawnError,
    ClipboardWriteError,
    ClipboardWaitError,
    IoError(String),
    TomlError(String),
    TomlDeError(String),
    FromUtf8Error(String),
    AgeDecryptError(String),
}

pub type AuthResult<T> = Result<T, AuthError>;

impl AuthError {
    /// The text shown to the user for this error.
    pub open spec fn spec_message(self) -> Seq<char> {
        match self {
            AuthError::SaveError => "Failed to save entries"@,
            AuthError::ParseError => "Failed to parse entries"@,
            AuthError::ReadError => "Failed to read file"@,
            AuthError::WriteError => "Failed to write file"@,
            AuthError::SerializeError => "Failed to serialize entries"@,
            AuthError::InvalidKey(detail) => "Invalid key: "@ + detail@,
            AuthError::EncryptorError => "Failed to create encryptor"@,
            AuthError::ClipboardError => "Failed to copy to clipboard"@,
            AuthError::TotpError => "Failed to generate TOTP code"@,
            AuthError::DecryptError => "Failed to decrypt entries"@,
            AuthError::Utf8Error => "Failed to decode entries as UTF-8"@,
            AuthError::HomeDirError => "Could not find home directory"@,
            AuthError::CreateDirError => "Failed to create auth directory"@,
            AuthError::CryptoInitError => "Failed to initialize encryption"@,
            AuthError::EmptyEntryError => "Empty entries are not allowed"@,
            AuthError::DirectoryError => "Path points to a directory"@,
            AuthError::FileNotExistError => "File does not exist"@,
            AuthError::NoFilenameError => "No file name provided"@,
            AuthError::EmptyExportError => "No entries to export"@,
            AuthError::TomlExtError => "File must have .toml extension"@,
            AuthError::ClipboardSpawnError => "Failed to spawn clipboard process"@,
            AuthError::ClipboardWriteError => "Failed to write to clipboard process"@,
            AuthError::ClipboardWaitError => "Failed to wait for clipboard process"@,
            AuthError::IoError(detail) => "IO error: "@ + detail@,
            AuthError::TomlError(detail) => "TOML serialization error: "@ + detail@,
            AuthError::TomlDeError(detail) => "TOML deserialization error: "@ + detail@,
            AuthError::FromUtf8Error(detail) => "UTF-8 conversion error: "@ + detail@,
            AuthError::AgeDecryptError(detail) => "Decryption error: "@ + detail@,
        }
    }

    /// Renders this error as the text shown to the user.
    pub fn message(&self) -> (text: String)
        ensures
            text@ == self.spec_message(),
    {
        match self {
            AuthError::SaveError => String::from_str("Failed to save entries"),
            AuthError::ParseError => String::from_str("Failed to parse entries"),
            AuthError::ReadError => String::from_str("Failed to read file"),
            AuthError::WriteError => String::from_str("Failed to write file"),
            AuthError::SerializeError => String::from_str("Failed to serialize entries"),
            AuthError::InvalidKey(detail) => String::from_str("Invalid key: ").concat(
                detail.as_str(),
            ),
            AuthError::EncryptorError => String::from_str("Failed to create encryptor"),
            AuthError::ClipboardError => String::from_str("Failed to copy to clipboard"),
            AuthError::TotpError => String::from_str("Failed to generate TOTP code"),
            AuthError::DecryptError => String::from_str("Failed to decrypt entries"),
            AuthError::Utf8Error => String::from_str("Failed to decode entries as UTF-8"),
            AuthError::HomeDirError => String::from_str("Could not find home directory"),
            AuthError::CreateDirError => String::from_str("Failed to create auth directory"),
            AuthError::CryptoInitError => String::from_str("Failed to initialize encryption"),
            AuthError::EmptyEntryError => String::from_str("Empty entries are not allowed"),
            AuthError::DirectoryError => String::from_str("Path points to a directory"),
            AuthError::FileNotExistError => String::from_str("File does not exist"),
            AuthError::NoFilenameError => String::from_str("No file name provided"),
            AuthError::EmptyExportError => String::from_str("No entries to export"),
            AuthError::TomlExtError => String::from_str("File must have .toml extension"),
            AuthError::ClipboardSpawnError => String::from_str(
                "Failed to spawn clipboard process",
            ),
            AuthError::ClipboardWriteError => String::from_str(
                "Failed to write to clipboard process",
            ),
            AuthError::ClipboardWaitError => String::from_str(
                "Failed to wait for clipboard process",
            ),
            AuthError::IoError(detail) => String::from_str("IO error: ").concat(detail.as_str()),
            AuthError::TomlError(detail) => String::from_str("TOML serialization error: ").concat(
                detail.as_str(),
            ),
            AuthError::TomlDeError(detail) => String::from_str(
                "TOML deserialization error: ",
            ).concat(detail.as_str()),
            AuthError::FromUtf8Error(detail) => String::from_str(
                "UTF-8 conversion error: ",
            ).concat(detail.as_str()),
            AuthError::AgeDecryptError(detail) => String::from_str("Decryption error: ").concat(
                detail.as_str(),
            ),
        }
    }
}

} // verus!
