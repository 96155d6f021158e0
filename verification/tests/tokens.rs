use tasks_tracker::client::bearer_value;
use tasks_tracker::token::{is_readable, mint_token, presents_token, TOKEN_LEN};

#[test]
fn minted_token_has_thirty_two_alphanumerics() {
    for _ in 0..50 {
        let token = mint_token();
        assert_eq!(token.chars().count(), 32);
        assert_eq!(token.len(), TOKEN_LEN);
        assert!(token.chars().all(|c| c.is_ascii_alphanumeric()));
    }
}

#[test]
fn minted_tokens_differ() {
    let mut seen: Vec<String> = Vec::new();
    for _ in 0..200 {
        let token = mint_token();
        assert!(!seen.contains(&token));
        seen.push(token);
    }
}

#[test]
fn bearer_value_prefixes_the_scheme() {
    assert_eq!(bearer_value("abc"), "Bearer abc");
    assert_eq!(bearer_value(""), "Bearer ");
    assert_eq!(bearer_value("é"), "Bearer é");
}

#[test]
fn presents_token_is_exact_match() {
    assert!(presents_token(b"Bearer abc", "abc"));
    assert!(presents_token(b"Bearer ", ""));
    assert!(!presents_token(b"Bearer abc", "abd"));
    assert!(!presents_token(b"Bearer abc", "ab"));
    assert!(!presents_token(b"Bearer ab", "abc"));
    assert!(!presents_token(b"bearer abc", "abc"));
    assert!(!presents_token(b"Bearerabc", "abc"));
    assert!(!presents_token(b"abc", "abc"));
    assert!(!presents_token(b"", "abc"));
    assert!(!presents_token(b"Bear", ""));
}

#[test]
fn presents_token_compares_encoded_bytes() {
    assert!(presents_token("Bearer é".as_bytes(), "é"));
    assert!(!presents_token(b"Bearer e", "é"));
}

#[test]
fn what_the_client_sends_presents_the_token() {
    let token = mint_token();
    let value = bearer_value(&token);
    assert!(is_readable(value.as_bytes()));
    assert!(presents_token(value.as_bytes(), &token));
}

#[test]
fn readable_accepts_visible_ascii_and_tab() {
    assert!(is_readable(b""));
    assert!(is_readable(b"Bearer abc"));
    assert!(is_readable(b"a\tb"));
    assert!(is_readable(&[32]));
    assert!(is_readable(&[126]));
}

#[test]
fn readable_rejects_control_and_high_bytes() {
    assert!(!is_readable(&[31]));
    assert!(!is_readable(&[127]));
    assert!(!is_readable(&[128]));
    assert!(!is_readable(&[255]));
    assert!(!is_readable(&[0]));
    assert!(!is_readable(b"a\nb"));
    assert!(!is_readable("Bearer é".as_bytes()));
    assert!(!is_readable(&[b'a', b'b', 200]));
}
