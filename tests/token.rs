use matrixapi::token::access_token_from_output;
use matrixapi::token::is_white_space;
use matrixapi::token::trim_text;
use matrixapi::MatrixAPIError;

#[test]
fn token_loses_surrounding_whitespace() {
    let out = b"  \tsyt_abc123\n".to_vec();
    assert_eq!(access_token_from_output(&out).unwrap(), "syt_abc123");
}

#[test]
fn token_keeps_inner_whitespace() {
    let out = b"\n a b \r\n".to_vec();
    assert_eq!(access_token_from_output(&out).unwrap(), "a b");
}

#[test]
fn token_without_whitespace_is_unchanged() {
    let out = b"plain".to_vec();
    assert_eq!(access_token_from_output(&out).unwrap(), "plain");
}

#[test]
fn token_of_only_whitespace_is_empty() {
    let out = b" \n\t ".to_vec();
    assert_eq!(access_token_from_output(&out).unwrap(), "");
    assert_eq!(access_token_from_output(&Vec::new()).unwrap(), "");
}

#[test]
fn token_of_invalid_utf8_fails() {
    let out = vec![0x61u8, 0xff, 0x62];
    assert!(matches!(
        access_token_from_output(&out),
        Err(MatrixAPIError::AccessTokenError(_))
    ));
}

#[test]
fn token_decodes_multibyte_text() {
    let out = "\u{3000} jeton-é \u{2003}".as_bytes().to_vec();
    assert_eq!(access_token_from_output(&out).unwrap(), "jeton-é");
}

#[test]
fn trimming_agrees_with_std() {
    let samples = [
        "",
        "   ",
        "x",
        " x ",
        "\u{85}a\u{a0}b\u{2028}",
        "\u{1680}\u{200a}\u{202f}mid dle\u{205f}\u{3000}",
        "\u{200b}zero-width\u{200b}",
    ];
    for s in samples.iter() {
        assert_eq!(trim_text(s), s.trim());
    }
}

#[test]
fn whitespace_agrees_with_std() {
    for u in 0u32..0x3100 {
        if let Some(c) = char::from_u32(u) {
            assert_eq!(is_white_space(c), c.is_whitespace(), "U+{:04X}", u);
        }
    }
}
