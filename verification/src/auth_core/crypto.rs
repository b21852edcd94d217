//! The identity of an installation, and the envelope it seals the vault in.
//!
//! The identity is created once and kept, as its key text, in a file of its
//! own beside the vault. Nothing else can open what was sealed for it.

use crate::utils::error::{AuthError, AuthResult};
use std::io::Write;
use vstd::prelude::*;

verus! {

/// What `age::x25519::Identity::from_str` makes of `text`: nothing where it
/// parses as an identity, else the reason it gives for the refusal.
pub uninterp spec fn identity_refusal(text: Seq<char>) -> Option<Seq<char>>;

/// What decrypting `envelope` with the identity of the key text `key` gives:
/// the plaintext, or nothing where the key text is no identity or the
/// envelope does not open with it.
pub uninterp spec fn age_plaintext(key: Seq<char>, envelope: Seq<u8>) -> Option<Seq<u8>>;

/// `age::x25519::Identity::from_str`, with its error as text.
#[verifier::external_body]
fn parse_identity(text: &str) -> (refusal: Option<String>)
    ensures
        match refusal {
            Some(reason) => identity_refusal(text@) == Some(reason@),
            None => identity_refusal(text@) is None,
        },
{
    match text.parse::<age::x25519::Identity>() {
        Ok(_) => None,
        Err(reason) => Some(reason.to_string()),
    }
}

/// `age::x25519::Identity::generate`, serialized with `Identity::to_string`.
/// The key is drawn from the operating system's random source, so nothing is
/// said of which key comes back, only that its text parses as an identity
/// again. The outside code aborts where that source fails.
#[verifier::external_body]
fn generate_identity() -> (key: String)
    ensures
        identity_refusal(key@) is None,
{
    age::secrecy::ExposeSecret::expose_secret(&age::x25519::Identity::generate().to_string())
        .to_string()
}

/// `age::Encryptor::with_recipients` for the public half of the identity that
/// `key` parses to, then `wrap_output`, `write_all` and `finish` into a fresh
/// buffer.
///
/// An envelope comes back for every key text that parses: a single X25519
/// recipient is always accepted, and writing into a buffer in memory does not
/// fail. The envelope holds fresh random material, so two calls differ; what
/// is claimed of every envelope that comes back is that it opens, with the
/// same identity, to the bytes that went in. The outside code aborts where
/// the random source fails.
#[verifier::external_body]
fn age_encrypt(key: &str, data: &[u8]) -> (envelope: Option<Vec<u8>>)
    ensures
        identity_refusal(key@) is None ==> envelope is Some,
        envelope matches Some(bytes) ==> age_plaintext(key@, bytes@) == Some(data@),
{
    let recipient = key.parse::<age::x25519::Identity>().ok()?.to_public();
    let recipients = std::iter::once(&recipient as &dyn age::Recipient);
    let mut bytes = Vec::new();
    let encryptor = age::Encryptor::with_recipients(recipients).ok()?;
    let mut writer = encryptor.wrap_output(&mut bytes).ok()?;
    writer.write_all(data).ok()?;
    writer.finish().ok()?;
    Some(bytes)
}

/// `age::Decryptor::new` on the envelope, `decrypt` with the identity that
/// `key` parses to, and the plaintext read to its end.
#[verifier::external_body]
fn age_decrypt(key: &str, envelope: &[u8]) -> (plaintext: Option<Vec<u8>>)
    ensures
        match plaintext {
            Some(bytes) => age_plaintext(key@, envelope@) == Some(bytes@),
            None => age_plaintext(key@, envelope@) is None,
        },
{
    let identity = key.parse::<age::x25519::Identity>().ok()?;
    let identities = std::iter::once(&identity as &dyn age::Identity);
    let mut reader = age::Decryptor::new(envelope).ok()?.decrypt(identities).ok()?;
    let mut bytes = Vec::new();
    std::io::copy(&mut reader, &mut bytes).ok()?;
    Some(bytes)
}

/// The identity of this installation, held as its key text. The key text of
/// a `Crypto` always parses as an identity.
pub struct Crypto {
    key: String,
}

impl View for Crypto {
    type V = Seq<char>;

    /// The key text of the identity.
    closed spec fn view(&self) -> Seq<char> {
        self.key@
    }
}

impl Crypto {
    #[verifier::type_invariant]
    spec fn parses(self) -> bool {
        identity_refusal(self.key@) is None
    }

    /// Takes the identity stored in a key file, or creates one where there is
    /// no such file yet.
    ///
    /// With `stored` text, the identity is the one that the text parses to;
    /// the call fails with `InvalidKey`, and the parser's reason, where it
    /// parses to none. Without, a new identity is generated: its key text,
    /// from `key_text`, is then to be written to the key file as it is.
    pub fn new(stored: Option<&str>) -> (crypto: AuthResult<Crypto>)
        ensures
            match crypto {
                Ok(made) => identity_refusal(made@) is None && (stored matches Some(text)
                    ==> made@ == text@),
                Err(AuthError::InvalidKey(reason)) => stored matches Some(text)
                    && identity_refusal(text@) == Some(reason@),
                Err(_) => false,
            },
    {
        match stored {
            Some(text) => match parse_identity(text) {
                None => Ok(Crypto { key: text.to_owned() }),
                Some(reason) => Err(AuthError::InvalidKey(reason)),
            },
            None => Ok(Crypto { key: generate_identity() }),
        }
    }

    /// The key text of the identity, as the key file holds it.
    pub fn key_text(&self) -> (text: &str)
        ensures
            text@ == self@,
    {
        self.key.as_str()
    }

    /// Seals `data` in an envelope for this identity.
    ///
    /// An envelope is always returned, and it opens with this identity to
    /// `data` again. `EncryptorError` stands for an encryption that could
    /// not be set up, which does not happen with the identity of a `Crypto`:
    /// its key text parses, and for every key text that parses an envelope
    /// is made.
    pub fn encrypt(&self, data: &[u8]) -> (sealed: AuthResult<Vec<u8>>)
        ensures
            sealed matches Ok(envelope) && age_plaintext(self@, envelope@) == Some(data@),
    {
        proof {
            use_type_invariant(self);
        }
        match age_encrypt(self.key.as_str(), data) {
            Some(envelope) => Ok(envelope),
            None => Err(AuthError::EncryptorError),
        }
    }

    /// Opens an envelope with this identity.
    ///
    /// Fails with `DecryptError` where the envelope was sealed for another
    /// identity, is damaged, or is no envelope.
    pub fn decrypt(&self, data: &[u8]) -> (opened: AuthResult<Vec<u8>>)
        ensures
            match opened {
                Ok(plaintext) => age_plaintext(self@, data@) == Some(plaintext@),
                Err(AuthError::DecryptError) => age_plaintext(self@, data@) is None,
                Err(_) => false,
            },
    {
        match age_decrypt(self.key.as_str(), data) {
            Some(plaintext) => Ok(plaintext),
            None => Err(AuthError::DecryptError),
        }
    }
}

} // verus!
