//! Derivation of time-based one-time passwords from base32 secrets.
//!
//! A secret is first brought into its normal form, then decoded, stretched
//! to the shortest key the code generator takes, and turned into the code of
//! the period that holds the given second.

use crate::utils::clock::read_clock;
use crate::utils::error::{AuthError, AuthResult};
use crate::utils::text::{chars_of, push_char};
use vstd::prelude::*;
use vstd::string::{StrSliceExecFns, StringExecFns};
use vstd::utf8::is_ascii_chars;

verus! {

/// Digits in a code.
pub const TOTP_DIGITS: usize = 6;

/// Neighbouring periods whose codes would be taken when a code is verified;
/// the codes themselves do not depend on it.
pub const TOTP_STEP: u8 = 1;

/// Seconds for which one code stays current.
pub const TOTP_PERIOD: u64 = 30;

/// Normal forms are padded to a multiple of this many characters.
pub const SECRET_PADDING_BLOCK: usize = 8;

/// The character that pads a normal form.
pub const SECRET_PAD_CHAR: char = '=';

/// Keys shorter than this many bytes are stretched with zero bytes.
pub const MIN_SECRET_LENGTH: usize = 16;

/// Whether `c` is white space (the Unicode property `White_Space`).
pub open spec fn is_whitespace(c: char) -> bool {
    let n = c as u32;
    ||| 0x09 <= n <= 0x0D
    ||| n == 0x20
    ||| n == 0x85
    ||| n == 0xA0
    ||| n == 0x1680
    ||| 0x2000 <= n <= 0x200A
    ||| n == 0x2028
    ||| n == 0x2029
    ||| n == 0x202F
    ||| n == 0x205F
    ||| n == 0x3000
}

/// `c` with the letters `a` to `z` raised to `A` to `Z`; any other character
/// is left as it is.
pub open spec fn to_upper(c: char) -> char {
    if 'a' <= c <= 'z' {
        ((c as u8) - 32) as char
    } else {
        c
    }
}

/// `text` without its white space.
pub open spec fn stripped(text: Seq<char>) -> Seq<char> {
    text.filter(|c: char| !is_whitespace(c))
}

/// What `str::to_uppercase` returns for `text`.
pub uninterp spec fn uppercased(text: Seq<char>) -> Seq<char>;

/// `text` with each of the letters `a` to `z` raised.
pub open spec fn ascii_raised(text: Seq<char>) -> Seq<char> {
    text.map_values(|c: char| to_upper(c))
}

/// `text` in upper case. In a text of ASCII characters the letters `a` to
/// `z` are raised; a text with other characters in it is raised as
/// `str::to_uppercase` raises it.
pub open spec fn raised(text: Seq<char>) -> Seq<char> {
    if is_ascii_chars(text) {
        ascii_raised(text)
    } else {
        uppercased(text)
    }
}

/// `text` without its white space, in upper case.
pub open spec fn cleaned(text: Seq<char>) -> Seq<char> {
    raised(stripped(text))
}

/// Whether normalizing leaves the characters of `text` alone: it holds no
/// white space and is its own upper case.
pub open spec fn is_settled(text: Seq<char>) -> bool {
    stripped(text) == text && raised(text) == text
}

/// The number of pad characters that bring a text of `len` characters to a
/// whole number of blocks.
pub open spec fn padding_len(len: nat) -> nat {
    let block = SECRET_PADDING_BLOCK as int;
    ((block - (len as int) % block) % block) as nat
}

/// The normal form of a secret: white space removed, upper case, padded with
/// `=` to the next multiple of eight characters. The empty text stays empty.
pub open spec fn normalized(text: Seq<char>) -> Seq<char> {
    let body = cleaned(text);
    body + Seq::new(padding_len(body.len()), |i: int| SECRET_PAD_CHAR)
}

/// A key of at least sixteen bytes: `key` itself, or `key` followed by zero
/// bytes where it is shorter.
pub open spec fn padded_key(key: Seq<u8>) -> Seq<u8> {
    if key.len() < MIN_SECRET_LENGTH {
        key + Seq::new((MIN_SECRET_LENGTH - key.len()) as nat, |i: int| 0u8)
    } else {
        key
    }
}

/// Seconds left at `now` until the current code expires, from 1 to 30.
pub open spec fn remaining_at(now: u64) -> u64 {
    (TOTP_PERIOD - now % TOTP_PERIOD) as u64
}

/// Whether `code` is made of `digits` decimal digits.
pub open spec fn is_code(code: Seq<char>, digits: nat) -> bool {
    &&& code.len() == digits
    &&& forall|i: int| 0 <= i < code.len() ==> '0' <= #[trigger] code[i] <= '9'
}

/// The parameters that `TOTP::new` takes: six to eight digits, and a key of
/// at least sixteen bytes.
pub open spec fn totp_accepts(digits: usize, key_len: nat) -> bool {
    6 <= digits <= 8 && key_len >= 16
}

/// What `base32::decode` returns for `text` with the RFC 4648 alphabet and
/// padding: the decoded bytes, or nothing where `text` is no such encoding.
pub uninterp spec fn base32_decoded(text: Seq<char>) -> Option<Seq<u8>>;

/// What `TOTP::generate` returns at the second `time` for a generator made by
/// `TOTP::new` with HMAC-SHA1 and these parameters.
pub uninterp spec fn totp_code(
    key: Seq<u8>,
    digits: usize,
    skew: u8,
    step: u64,
    time: u64,
) -> Seq<char>;

/// The key that a text in normal form stands for: the text decoded, and
/// stretched where it is short. Nothing where the text is empty or does not
/// decode.
pub open spec fn decoded_key(text: Seq<char>) -> Option<Seq<u8>> {
    if text.len() == 0 {
        None
    } else {
        match base32_decoded(text) {
            Some(bytes) => Some(padded_key(bytes)),
            None => None,
        }
    }
}

/// Why a text in normal form stands for no key.
pub open spec fn decode_failure(text: Seq<char>) -> Seq<char> {
    if text.len() == 0 {
        "Empty secret"@
    } else {
        "Invalid base32 encoding"@
    }
}

/// The key that a secret stands for: the key of its normal form.
pub open spec fn secret_key(secret: Seq<char>) -> Option<Seq<u8>> {
    decoded_key(normalized(secret))
}

/// What deriving a code from `secret` at the second `now` gives: the code
/// and the seconds it stays current, or the reason why the secret is no key.
pub open spec fn totp_at(secret: Seq<char>, now: u64) -> Result<(Seq<char>, u64), Seq<char>> {
    match secret_key(secret) {
        Some(key) => Ok(code_at(key, now)),
        None => Err(decode_failure(normalized(secret))),
    }
}

/// Whether `outcome` is what `expected` describes: the same code and seconds,
/// or an `InvalidKey` error with the same reason.
pub open spec fn totp_matches(
    outcome: AuthResult<(String, u64)>,
    expected: Result<(Seq<char>, u64), Seq<char>>,
) -> bool {
    match outcome {
        Ok((code, remaining)) => expected == Ok::<(Seq<char>, u64), Seq<char>>((code@, remaining)),
        Err(AuthError::InvalidKey(reason)) => expected == Err::<(Seq<char>, u64), Seq<char>>(
            reason@,
        ),
        Err(_) => false,
    }
}

/// The code and the seconds it stays current, for a stretched key at the
/// second `now`.
pub open spec fn code_at(key: Seq<u8>, now: u64) -> (Seq<char>, u64) {
    (totp_code(key, TOTP_DIGITS, TOTP_STEP, TOTP_PERIOD, now), remaining_at(now))
}

/// `base32::decode` with `Alphabet::Rfc4648 { padding: true }`: the bytes that
/// `text` encodes, or nothing where it holds a character that is neither in
/// the alphabet nor the padding character.
#[verifier::external_body]
fn base32_decode(text: &str) -> (decoded: Option<Vec<u8>>)
    ensures
        match decoded {
            Some(bytes) => base32_decoded(text@) == Some(bytes@),
            None => base32_decoded(text@) is None,
        },
{
    base32::decode(base32::Alphabet::Rfc4648 { padding: true }, text)
}

/// `TOTP::new` with `Algorithm::SHA1`, then `TOTP::generate` at `time`.
///
/// `new` accepts the parameters exactly when `digits` is 6, 7 or 8 and the
/// key has at least 16 bytes. `generate` then formats the truncated HMAC,
/// reduced modulo ten to the power of `digits`, with leading zeros to that
/// width, so the code is `digits` decimal digits. It divides `time` by
/// `step`, which therefore must not be zero.
#[verifier::external_body]
fn totp_generate(
    digits: usize,
    skew: u8,
    step: u64,
    key: Vec<u8>,
    time: u64,
) -> (code: Option<String>)
    requires
        step > 0,
    ensures
        (code is Some) == totp_accepts(digits, key@.len()),
        code matches Some(text) ==> text@ == totp_code(key@, digits, skew, step, time),
        code matches Some(text) ==> is_code(text@, digits as nat),
{
    match totp_rs::TOTP::new(totp_rs::Algorithm::SHA1, digits, skew, step, key) {
        Ok(totp) => Some(totp.generate(time)),
        Err(_) => None,
    }
}

/// Tells whether `c` is white space.
pub fn char_is_whitespace(c: char) -> (white: bool)
    ensures
        white == is_whitespace(c),
{
    let n: u32 = c as u32;
    (0x09 <= n && n <= 0x0D) || n == 0x20 || n == 0x85 || n == 0xA0 || n == 0x1680 || (0x2000 <= n
        && n <= 0x200A) || n == 0x2028 || n == 0x2029 || n == 0x202F || n == 0x205F || n == 0x3000
}

/// Raises a lower-case letter of `a` to `z`; returns any other character as it is.
pub fn char_to_upper(c: char) -> (upper: char)
    ensures
        upper == to_upper(c),
{
    if 'a' <= c && c <= 'z' {
        ((c as u8) - 32) as char
    } else {
        c
    }
}

/// `str::to_uppercase`: the text in upper case.
#[verifier::external_body]
fn to_uppercase(text: &str) -> (upper: String)
    ensures
        upper@ == uppercased(text@),
{
    text.to_uppercase()
}

/// Stripping a text that ends in `c` strips the text before it and then,
/// unless `c` is white space, appends `c`.
pub proof fn lemma_stripped_push(text: Seq<char>, c: char)
    ensures
        stripped(text.push(c)) == if is_whitespace(c) {
            stripped(text)
        } else {
            stripped(text).push(c)
        },
{
    reveal(Seq::filter);
    assert(text.push(c).drop_last() =~= text);
}

/// Removes the white space of a text.
pub fn strip_whitespace(text: &str) -> (body: String)
    ensures
        body@ == stripped(text@),
{
    let chars = chars_of(text);
    let mut body = String::new();
    let mut i: usize = 0;
    assert(text@.take(0) =~= Seq::<char>::empty());
    assert(stripped(Seq::<char>::empty()) =~= Seq::<char>::empty()) by {
        reveal(Seq::filter);
    }
    while i < chars.len()
        invariant
            i <= chars.len(),
            chars@ == text@,
            body@ == stripped(text@.take(i as int)),
        decreases chars.len() - i,
    {
        let c = chars[i];
        proof {
            lemma_stripped_push(text@.take(i as int), c);
            assert(text@.take(i as int).push(c) =~= text@.take(i + 1));
        }
        if !char_is_whitespace(c) {
            push_char(&mut body, c);
        }
        i = i + 1;
    }
    assert(text@.take(chars.len() as int) =~= text@);
    body
}

/// Raises the letters `a` to `z` of a text.
pub fn raise_ascii(text: &str) -> (upper: String)
    ensures
        upper@ == ascii_raised(text@),
{
    let chars = chars_of(text);
    let mut upper = String::new();
    let mut i: usize = 0;
    while i < chars.len()
        invariant
            i <= chars.len(),
            chars@ == text@,
            upper@ == ascii_raised(text@.take(i as int)),
        decreases chars.len() - i,
    {
        push_char(&mut upper, char_to_upper(chars[i]));
        i = i + 1;
        assert(upper@ =~= ascii_raised(text@.take(i as int)));
    }
    assert(text@.take(chars.len() as int) =~= text@);
    upper
}

/// Brings a text into upper case: a text of ASCII characters by raising its
/// letters, any other text through `str::to_uppercase`.
pub fn raise(text: &str) -> (upper: String)
    ensures
        upper@ == raised(text@),
{
    if text.is_ascii() {
        raise_ascii(text)
    } else {
        to_uppercase(text)
    }
}

/// Brings a secret into its normal form.
pub fn normalize_secret(secret: &str) -> (text: String)
    ensures
        text@ == normalized(secret@),
{
    let mut text = raise(strip_whitespace(secret).as_str());
    let len = text.as_str().unicode_len();
    let ghost body = text@;
    let pad: usize = (SECRET_PADDING_BLOCK - len % SECRET_PADDING_BLOCK) % SECRET_PADDING_BLOCK;
    let mut j: usize = 0;
    while j < pad
        invariant
            j <= pad,
            pad == padding_len(body.len()),
            text@ == body + Seq::new(j as nat, |i: int| SECRET_PAD_CHAR),
        decreases pad - j,
    {
        push_char(&mut text, SECRET_PAD_CHAR);
        j = j + 1;
        assert(text@ =~= body + Seq::new(j as nat, |i: int| SECRET_PAD_CHAR));
    }
    text
}

/// Stretches a decoded key with zero bytes to sixteen bytes; a key that is
/// long enough is returned as it is.
pub fn pad_secret_if_needed(decoded: Vec<u8>) -> (key: Vec<u8>)
    ensures
        key@ == padded_key(decoded@),
{
    if decoded.len() < MIN_SECRET_LENGTH {
        let mut padded = decoded;
        let ghost start = padded@;
        while padded.len() < MIN_SECRET_LENGTH
            invariant
                start.len() <= padded@.len() <= MIN_SECRET_LENGTH,
                padded@ == start + Seq::new((padded@.len() - start.len()) as nat, |i: int| 0u8),
            decreases MIN_SECRET_LENGTH - padded.len(),
        {
            padded.push(0);
            assert(padded@ =~= start + Seq::new(
                (padded@.len() - start.len()) as nat,
                |i: int| 0u8,
            ));
        }
        padded
    } else {
        decoded
    }
}

/// Decodes a secret in normal form and stretches the key.
///
/// Fails with `InvalidKey` where the text is empty or is no base32 encoding.
pub fn decode_and_pad_secret(secret: &str) -> (key: AuthResult<Vec<u8>>)
    ensures
        match key {
            Ok(bytes) => decoded_key(secret@) == Some(bytes@),
            Err(AuthError::InvalidKey(reason)) => decoded_key(secret@) is None && reason@
                == decode_failure(secret@),
            Err(_) => false,
        },
{
    if secret.is_empty() {
        return Err(AuthError::InvalidKey(String::from_str("Empty secret")));
    }
    match base32_decode(secret) {
        Some(decoded) => Ok(pad_secret_if_needed(decoded)),
        None => Err(AuthError::InvalidKey(String::from_str("Invalid base32 encoding"))),
    }
}

/// The seconds left at `now` until the current code expires.
pub fn calculate_remaining_time(now: u64) -> (remaining: u64)
    ensures
        remaining == remaining_at(now),
        1 <= remaining <= TOTP_PERIOD,
{
    TOTP_PERIOD - now % TOTP_PERIOD
}

/// Generates the code of a stretched key at the second `now`, with the
/// seconds it stays current.
///
/// Fails with `TotpError` where the generator refuses the key, which it does
/// for keys shorter than sixteen bytes only.
pub fn generate_totp_code(key: Vec<u8>, now: u64) -> (outcome: AuthResult<(String, u64)>)
    ensures
        match outcome {
            Ok((code, remaining)) => key@.len() >= MIN_SECRET_LENGTH && (code@, remaining)
                == code_at(key@, now) && is_code(code@, TOTP_DIGITS as nat),
            Err(AuthError::TotpError) => key@.len() < MIN_SECRET_LENGTH,
            Err(_) => false,
        },
{
    let remaining = calculate_remaining_time(now);
    match totp_generate(TOTP_DIGITS, TOTP_STEP, TOTP_PERIOD, key, now) {
        Some(code) => Ok((code, remaining)),
        None => Err(AuthError::TotpError),
    }
}

/// Derives the code of `secret` at the second `now`, and the seconds it stays
/// current.
///
/// Succeeds exactly when the normal form of `secret` is not empty and decodes
/// as base32; the code then has six decimal digits, and between 1 and 30
/// seconds are left. Fails with `InvalidKey` otherwise.
pub fn generate_totp_at(secret: &str, now: u64) -> (outcome: AuthResult<(String, u64)>)
    ensures
        totp_matches(outcome, totp_at(secret@, now)),
        outcome matches Ok((code, remaining)) ==> is_code(code@, TOTP_DIGITS as nat) && 1
            <= remaining <= TOTP_PERIOD,
{
    let text = normalize_secret(secret);
    match decode_and_pad_secret(text.as_str()) {
        Ok(key) => generate_totp_code(key, now),
        Err(e) => Err(e),
    }
}

/// Derives the current code of `secret`, and the seconds it stays current.
///
/// Fails with `InvalidKey` exactly when the normal form of `secret` is empty
/// or does not decode as base32. Otherwise the clock is read: the outcome is
/// that of `generate_totp_at` at the second read, or `TotpError` where the
/// clock stands before the epoch.
pub fn generate_totp(secret: &str) -> (outcome: AuthResult<(String, u64)>)
    ensures
        match outcome {
            Ok((code, remaining)) => exists|now: u64|
                totp_at(secret@, now) == Ok::<(Seq<char>, u64), Seq<char>>(
                    (code@, remaining),
                ) && is_code(code@, TOTP_DIGITS as nat) && 1 <= remaining <= TOTP_PERIOD,
            Err(AuthError::InvalidKey(reason)) => secret_key(secret@) is None && reason@
                == decode_failure(normalized(secret@)),
            Err(AuthError::TotpError) => secret_key(secret@) is Some,
            Err(_) => false,
        },
{
    let text = normalize_secret(secret);
    let key = match decode_and_pad_secret(text.as_str()) {
        Ok(key) => key,
        Err(e) => { return Err(e); },
    };
    match read_clock() {
        Some(moment) => {
            let outcome = generate_totp_code(key, moment.secs);
            assert(outcome matches Ok((code, remaining)) ==> totp_at(secret@, moment.secs) == Ok::<
                (Seq<char>, u64),
                Seq<char>,
            >((code@, remaining)));
            outcome
        },
        None => Err(AuthError::TotpError),
    }
}

/// Padding leaves nothing to pad: the length of a normal form is a multiple
/// of eight.
pub proof fn lemma_normalized_len(text: Seq<char>)
    ensures
        normalized(text).len() % (SECRET_PADDING_BLOCK as nat) == 0,
        normalized(text).len() == 0 <==> cleaned(text).len() == 0,
{
}

/// No character of a stripped text is white space.
pub proof fn lemma_stripped_chars(text: Seq<char>)
    ensures
        forall|i: int|
            0 <= i < stripped(text).len() ==> !is_whitespace(#[trigger] stripped(text)[i]),
    decreases text.len(),
{
    if text.len() > 0 {
        lemma_stripped_chars(text.drop_last());
        lemma_stripped_push(text.drop_last(), text.last());
        assert(text.drop_last().push(text.last()) =~= text);
    } else {
        reveal(Seq::filter);
    }
}

/// A text without white space is its own stripped form.
pub proof fn lemma_stripped_fixed(text: Seq<char>)
    requires
        forall|i: int| 0 <= i < text.len() ==> !is_whitespace(#[trigger] text[i]),
    ensures
        stripped(text) == text,
    decreases text.len(),
{
    if text.len() > 0 {
        lemma_stripped_fixed(text.drop_last());
        lemma_stripped_push(text.drop_last(), text.last());
        assert(text.drop_last().push(text.last()) =~= text);
    } else {
        reveal(Seq::filter);
    }
}

/// The normal form of a secret whose characters, white space apart, are
/// ASCII is settled: it holds no white space and is its own upper case.
pub proof fn lemma_ascii_normal_form_is_settled(text: Seq<char>)
    requires
        is_ascii_chars(stripped(text)),
    ensures
        is_settled(normalized(text)),
        is_ascii_chars(normalized(text)),
{
    let body = stripped(text);
    let once = normalized(text);
    lemma_stripped_chars(text);
    assert forall|i: int| 0 <= i < once.len() implies !is_whitespace(#[trigger] once[i])
        && to_upper(once[i]) == once[i] && '\0' <= once[i] <= '\u{7f}' by {
        if i >= body.len() {
            assert(once[i] == SECRET_PAD_CHAR);
        } else {
            assert(once[i] == to_upper(body[i]));
        }
    }
    lemma_stripped_fixed(once);
    assert(ascii_raised(once) =~= once);
}

/// Normalization is idempotent on every secret whose normal form is
/// settled: the normal form of that normal form is the same text.
pub proof fn law_normalize_idempotent_when_settled(text: Seq<char>)
    requires
        is_settled(normalized(text)),
    ensures
        normalized(normalized(text)) == normalized(text),
{
    lemma_normalized_len(text);
    assert(normalized(normalized(text)) =~= normalized(text));
}

/// Normalization is idempotent on every secret whose characters, white
/// space apart, are ASCII; every secret in the base32 alphabet is one.
pub proof fn law_normalize_idempotent(text: Seq<char>)
    requires
        is_ascii_chars(stripped(text)),
    ensures
        normalized(normalized(text)) == normalized(text),
{
    lemma_ascii_normal_form_is_settled(text);
    law_normalize_idempotent_when_settled(text);
}

/// Secrets with the same normal form give the same outcome at the same
/// second: the same code and remaining seconds, or the same failure.
pub proof fn law_same_normal_form_same_code(a: Seq<char>, b: Seq<char>, now: u64)
    requires
        normalized(a) == normalized(b),
    ensures
        totp_at(a, now) == totp_at(b, now),
{
}

/// A secret whose normal form is not empty and decodes gives a code, with
/// between 1 and 30 seconds left.
pub proof fn law_decodable_secret_gives_code(secret: Seq<char>, now: u64)
    requires
        normalized(secret).len() > 0,
        base32_decoded(normalized(secret)) is Some,
    ensures
        totp_at(secret, now) matches Ok((_, remaining)) && 1 <= remaining <= TOTP_PERIOD,
{
}

/// A secret whose normal form is empty or does not decode gives no code. The
/// empty secret is one of them.
pub proof fn law_undecodable_secret_fails(secret: Seq<char>, now: u64)
    requires
        normalized(secret).len() == 0 || base32_decoded(normalized(secret)) is None,
    ensures
        totp_at(secret, now) == Err::<(Seq<char>, u64), Seq<char>>(
            decode_failure(normalized(secret)),
        ),
        totp_at(Seq::empty(), now) is Err,
{
    assert(stripped(Seq::<char>::empty()) =~= Seq::<char>::empty()) by {
        reveal(Seq::filter);
    }
    assert(cleaned(Seq::<char>::empty()) =~= Seq::<char>::empty());
    assert(normalized(Seq::<char>::empty()) =~= Seq::<char>::empty());
}

} // verus!