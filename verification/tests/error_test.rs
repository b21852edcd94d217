use auth::utils::clock::Moment;
use auth::{AuthError, AuthResult};

#[test]
fn every_error_has_its_text() {
    let cases: Vec<(AuthError, &str)> = vec![
        (AuthError::SaveError, "Failed to save entries"),
        (AuthError::ParseError, "Failed to parse entries"),
        (AuthError::ReadError, "Failed to read file"),
        (AuthError::WriteError, "Failed to write file"),
        (AuthError::SerializeError, "Failed to serialize entries"),
        (AuthError::InvalidKey("Empty secret".to_string()), "Invalid key: Empty secret"),
        (AuthError::InvalidKey(String::new()), "Invalid key: "),
        (AuthError::EncryptorError, "Failed to create encryptor"),
        (AuthError::ClipboardError, "Failed to copy to clipboard"),
        (AuthError::TotpError, "Failed to generate TOTP code"),
        (AuthError::DecryptError, "Failed to decrypt entries"),
        (AuthError::Utf8Error, "Failed to decode entries as UTF-8"),
        (AuthError::HomeDirError, "Could not find home directory"),
        (AuthError::CreateDirError, "Failed to create auth directory"),
        (AuthError::CryptoInitError, "Failed to initialize encryption"),
        (AuthError::EmptyEntryError, "Empty entries are not allowed"),
        (AuthError::DirectoryError, "Path points to a directory"),
        (AuthError::FileNotExistError, "File does not exist"),
        (AuthError::NoFilenameError, "No file name provided"),
        (AuthError::EmptyExportError, "No entries to export"),
        (AuthError::TomlExtError, "File must have .toml extension"),
        (AuthError::ClipboardSpawnError, "Failed to spawn clipboard process"),
        (AuthError::ClipboardWriteError, "Failed to write to clipboard process"),
        (AuthError::ClipboardWaitError, "Failed to wait for clipboard process"),
        (AuthError::IoError("denied".to_string()), "IO error: denied"),
        (AuthError::TomlError("bad".to_string()), "TOML serialization error: bad"),
        (AuthError::TomlDeError("worse".to_string()), "TOML deserialization error: worse"),
        (AuthError::FromUtf8Error("byte 3".to_string()), "UTF-8 conversion error: byte 3"),
        (AuthError::AgeDecryptError("no key".to_string()), "Decryption error: no key"),
    ];
    for (error, text) in cases {
        assert_eq!(error.message(), text);
    }
}

#[test]
fn results_carry_the_error() {
    let failed: AuthResult<u8> = Err(AuthError::TotpError);
    assert!(matches!(failed, Err(AuthError::TotpError)));
    let fine: AuthResult<u8> = Ok(1);
    assert!(matches!(fine, Ok(1)));
}

#[test]
fn moments_measure_whole_seconds() {
    let start = Moment { secs: 10, nanos: 900_000_000 };
    assert!(Moment { secs: 13, nanos: 899_999_999 }.is_within(&start, 3));
    assert!(!Moment { secs: 13, nanos: 900_000_000 }.is_within(&start, 3));
    assert!(Moment { secs: 10, nanos: 900_000_000 }.is_within(&start, 1));
    assert!(!Moment { secs: 10, nanos: 900_000_000 }.is_within(&start, 0));
    assert!(Moment { secs: 9, nanos: 0 }.is_within(&start, 1));
    assert!(!Moment { secs: 9, nanos: 0 }.is_within(&start, 0));
    let late = Moment { secs: u64::MAX - 1, nanos: 999_999_999 };
    assert!(late.is_within(&Moment::from_secs(0), u64::MAX));
    assert!(!Moment { secs: u64::MAX, nanos: 0 }.is_within(&Moment::from_secs(0), u64::MAX));
    assert!(!Moment { secs: u64::MAX, nanos: u32::MAX }.is_within(&Moment::from_secs(0), u64::MAX));
    assert_eq!(Moment::from_secs(7), Moment { secs: 7, nanos: 0 });
}
