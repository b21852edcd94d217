use auth::auth_core::totp::{
    calculate_remaining_time, char_is_whitespace, char_to_upper, decode_and_pad_secret,
    generate_totp, generate_totp_at, generate_totp_code, normalize_secret, pad_secret_if_needed,
    raise, raise_ascii, strip_whitespace,
};
use auth::AuthError;

const RFC_SECRET: &str = "GEZDGNBVGY3TQOJQGEZDGNBVGY3TQOJQ";

#[test]
fn normalize_removes_spaces_and_raises_case() {
    assert_eq!(normalize_secret("jbsw y3dp ehpk 3pxp"), "JBSWY3DPEHPK3PXP");
}

#[test]
fn normalize_pads_to_a_multiple_of_eight() {
    assert_eq!(normalize_secret("JBSW"), "JBSW====");
    assert_eq!(normalize_secret("jbswy3dpe"), "JBSWY3DPE=======");
    assert_eq!(normalize_secret("ABCDEFG"), "ABCDEFG=");
    assert_eq!(normalize_secret("ABCDEFGH"), "ABCDEFGH");
}

#[test]
fn normalize_keeps_the_empty_secret_empty() {
    assert_eq!(normalize_secret(""), "");
    assert_eq!(normalize_secret("   "), "");
    assert_eq!(normalize_secret(" \t\n"), "");
}

#[test]
fn normalize_removes_every_kind_of_white_space() {
    assert_eq!(normalize_secret("jb\tsw\ny3\rdp\u{a0}eh\u{2003}pk\u{3000}3pxp"), "JBSWY3DPEHPK3PXP");
}

#[test]
fn normalize_leaves_what_has_no_upper_case_alone() {
    assert_eq!(normalize_secret("a!b@1"), "A!B@1===");
    assert_eq!(normalize_secret("{`~}"), "{`~}====");
}

#[test]
fn normalize_raises_letters_outside_ascii_too() {
    assert_eq!(normalize_secret("\u{e9}x"), "\u{c9}X======");
    assert_eq!(normalize_secret("\u{df}"), "SS======");
    assert_eq!(normalize_secret("tsch\u{fc}\u{df}"), "TSCH\u{dc}SS=");
    assert_eq!(normalize_secret("\u{131} \u{17f}"), "IS======");
}

#[test]
fn a_secret_that_is_raised_into_the_alphabet_gives_a_code() {
    assert_eq!(generate_totp_at("\u{df}", 59).unwrap(), generate_totp_at("SS", 59).unwrap());
    assert_eq!(generate_totp_at("jb\u{17f}w", 59).unwrap(), generate_totp_at("JBSW", 59).unwrap());
}

#[test]
fn white_space_is_stripped_and_nothing_else() {
    assert_eq!(strip_whitespace(" a b\tc\n"), "abc");
    assert_eq!(strip_whitespace("abc"), "abc");
    assert_eq!(strip_whitespace(" \u{a0}\u{3000}"), "");
    assert_eq!(strip_whitespace("A=1!\u{e9}"), "A=1!\u{e9}");
}

#[test]
fn upper_case_of_ascii_and_of_other_text() {
    assert_eq!(raise_ascii("abc xyz AZ 09 {`"), "ABC XYZ AZ 09 {`");
    assert_eq!(raise_ascii("\u{e9}a"), "\u{e9}A");
    assert_eq!(raise("hello"), "HELLO");
    assert_eq!(raise("hello"), "hello".to_uppercase());
    assert_eq!(raise("tsch\u{fc}\u{df}"), "TSCH\u{dc}SS");
    assert_eq!(raise(""), "");
    for text in ["abc", "a1!~", "JBSWY3DPEHPK3PXP", "\u{e9}t\u{e9}", "\u{3c3}\u{3c2}"] {
        assert_eq!(raise(text), text.to_uppercase());
    }
}

#[test]
fn normalize_is_idempotent() {
    let samples = [
        "",
        " ",
        "JBSW",
        "jbsw y3dp ehpk 3pxp",
        "JBSWY3DPEHPK3PX=",
        "invalid!@#$",
        "a b c d e f g h i",
        "\u{e9}t\u{e9}",
        "\u{df}",
        "tsch\u{fc}\u{df} \u{131}",
        "====",
    ];
    for sample in samples {
        let once = normalize_secret(sample);
        let twice = normalize_secret(&once);
        assert_eq!(twice, once);
        assert_eq!(once.chars().count() % 8, 0);
    }
}

#[test]
fn white_space_is_told_apart() {
    for c in [' ', '\t', '\n', '\r', '\u{b}', '\u{c}', '\u{85}', '\u{a0}', '\u{1680}', '\u{2000}',
        '\u{200a}', '\u{2028}', '\u{2029}', '\u{202f}', '\u{205f}', '\u{3000}']
    {
        assert!(char_is_whitespace(c));
        assert!(c.is_whitespace());
    }
    for c in ['a', 'Z', '0', '=', '\u{200b}', '\u{8}', '\u{e}', '\u{1f}', '!'] {
        assert!(!char_is_whitespace(c));
        assert!(!c.is_whitespace());
    }
}

#[test]
fn letters_are_raised_and_nothing_else() {
    assert_eq!(char_to_upper('a'), 'A');
    assert_eq!(char_to_upper('z'), 'Z');
    assert_eq!(char_to_upper('m'), 'M');
    assert_eq!(char_to_upper('A'), 'A');
    assert_eq!(char_to_upper('`'), '`');
    assert_eq!(char_to_upper('{'), '{');
    assert_eq!(char_to_upper('7'), '7');
    assert_eq!(char_to_upper('\u{e9}'), '\u{e9}');
}

#[test]
fn short_keys_are_stretched_with_zero_bytes() {
    assert_eq!(pad_secret_if_needed(vec![]), vec![0u8; 16]);
    assert_eq!(
        pad_secret_if_needed(vec![1, 2, 3]),
        vec![1, 2, 3, 0, 0, 0, 0, 0, 0, 0, 0, 0, 0, 0, 0, 0]
    );
    let fifteen: Vec<u8> = (1..=15).collect();
    let mut expected = fifteen.clone();
    expected.push(0);
    assert_eq!(pad_secret_if_needed(fifteen), expected);
}

#[test]
fn long_keys_are_left_alone() {
    let sixteen: Vec<u8> = (1..=16).collect();
    assert_eq!(pad_secret_if_needed(sixteen.clone()), sixteen);
    let twenty: Vec<u8> = (1..=20).collect();
    assert_eq!(pad_secret_if_needed(twenty.clone()), twenty);
}

#[test]
fn decoding_gives_the_bytes_and_stretches_them() {
    let key = decode_and_pad_secret("JBSWY3DPEHPK3PXP").unwrap();
    let mut expected = b"Hello!\xDE\xAD\xBE\xEF".to_vec();
    expected.resize(16, 0);
    assert_eq!(key, expected);

    let key = decode_and_pad_secret(RFC_SECRET).unwrap();
    assert_eq!(key, b"12345678901234567890".to_vec());
}

#[test]
fn decoding_the_empty_secret_fails() {
    match decode_and_pad_secret("") {
        Err(AuthError::InvalidKey(reason)) => assert_eq!(reason, "Empty secret"),
        other => panic!("unexpected outcome: {:?}", other),
    }
}

#[test]
fn decoding_what_is_no_base32_fails() {
    for text in ["INVALID!", "jbswy3dp", "JBSWY3D1", "\u{e9}\u{e9}\u{e9}\u{e9}"] {
        match decode_and_pad_secret(text) {
            Err(AuthError::InvalidKey(reason)) => assert_eq!(reason, "Invalid base32 encoding"),
            other => panic!("unexpected outcome: {:?}", other),
        }
    }
}

#[test]
fn remaining_time_counts_down_from_thirty() {
    assert_eq!(calculate_remaining_time(0), 30);
    assert_eq!(calculate_remaining_time(1), 29);
    assert_eq!(calculate_remaining_time(29), 1);
    assert_eq!(calculate_remaining_time(30), 30);
    assert_eq!(calculate_remaining_time(59), 1);
    assert_eq!(calculate_remaining_time(u64::MAX), 30 - (u64::MAX % 30));
}

#[test]
fn codes_match_the_published_vectors() {
    let cases: [(u64, &str); 6] = [
        (59, "287082"),
        (1111111109, "081804"),
        (1111111111, "050471"),
        (1234567890, "005924"),
        (2000000000, "279037"),
        (20000000000, "353130"),
    ];
    for (now, code) in cases {
        let (generated, remaining) = generate_totp_at(RFC_SECRET, now).unwrap();
        assert_eq!(generated, code);
        assert_eq!(remaining, 30 - now % 30);
    }
}

#[test]
fn a_code_holds_for_its_whole_period() {
    let (first, left_first) = generate_totp_at(RFC_SECRET, 30).unwrap();
    let (last, left_last) = generate_totp_at(RFC_SECRET, 59).unwrap();
    assert_eq!(first, last);
    assert_eq!(left_first, 30);
    assert_eq!(left_last, 1);
    let (next, _) = generate_totp_at(RFC_SECRET, 60).unwrap();
    assert_ne!(next, last);
}

#[test]
fn codes_are_six_digits_at_any_time() {
    for now in [0u64, 1, 29, 30, 1_700_000_000, u64::MAX] {
        for secret in ["JBSWY3DPEHPK3PXP", "JBSW", "MFRGG", RFC_SECRET, "jbsw y3dp"] {
            let (code, remaining) = generate_totp_at(secret, now).unwrap();
            assert_eq!(code.len(), 6);
            assert!(code.chars().all(|c| c.is_ascii_digit()));
            assert!((1..=30).contains(&remaining));
        }
    }
}

#[test]
fn undecodable_secrets_fail_with_invalid_key() {
    for secret in ["", "   ", "INVALID!SECRET", "invalid!@#$", "1", "\u{e9}"] {
        assert!(matches!(generate_totp_at(secret, 59), Err(AuthError::InvalidKey(_))));
        assert!(matches!(generate_totp(secret), Err(AuthError::InvalidKey(_))));
    }
}

#[test]
fn the_reason_tells_empty_from_undecodable() {
    match generate_totp_at(" ", 0) {
        Err(AuthError::InvalidKey(reason)) => assert_eq!(reason, "Empty secret"),
        other => panic!("unexpected outcome: {:?}", other),
    }
    match generate_totp_at("!", 0) {
        Err(AuthError::InvalidKey(reason)) => assert_eq!(reason, "Invalid base32 encoding"),
        other => panic!("unexpected outcome: {:?}", other),
    }
}

#[test]
fn equal_normal_forms_give_equal_codes() {
    let plain = "JBSWY3DPEHPK3PXP";
    let typed = "jbsw y3dp ehpk 3pxp";
    assert_eq!(normalize_secret(plain), normalize_secret(typed));
    for now in [0u64, 59, 1_700_000_000] {
        assert_eq!(generate_totp_at(plain, now).unwrap(), generate_totp_at(typed, now).unwrap());
    }
}

#[test]
fn a_padded_secret_is_its_own_normal_form() {
    assert_eq!(normalize_secret("JBSWY3DPEHPK3PX="), "JBSWY3DPEHPK3PX=");
    assert_ne!(normalize_secret("JBSWY3DPEHPK3PX="), normalize_secret("jbsw y3dp ehpk 3pxp"));
    let (code, remaining) = generate_totp_at("JBSWY3DPEHPK3PX=", 59).unwrap();
    assert_eq!(code.len(), 6);
    assert_eq!(remaining, 1);
}

#[test]
fn a_short_key_is_refused_by_the_generator() {
    assert!(matches!(generate_totp_code(vec![1, 2, 3], 59), Err(AuthError::TotpError)));
    assert!(matches!(generate_totp_code(vec![0; 15], 59), Err(AuthError::TotpError)));
    assert!(generate_totp_code(vec![0; 16], 59).is_ok());
}

#[test]
fn the_generator_takes_a_stretched_key() {
    let (code, remaining) = generate_totp_code(b"12345678901234567890".to_vec(), 59).unwrap();
    assert_eq!(code, "287082");
    assert_eq!(remaining, 1);
}
