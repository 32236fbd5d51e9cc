use auth_api::auth::{BearerToken, BearerTokenError};
use auth_api::bearer::extract;
use regex::Regex;

fn pattern() -> Regex {
    Regex::new(r"^(?i)bearer(?-i)\s*(.+)\s*$").unwrap()
}

fn reference(re: &Regex, key: &str) -> Option<String> {
    re.captures(key).and_then(|c| c.get(1)).map(|m| m.as_str().to_string())
}

#[test]
fn extract_plain_token() {
    assert_eq!(extract("Bearer abc"), Some("abc"));
}

#[test]
fn extract_scheme_any_case() {
    assert_eq!(extract("bEaReR xyz"), Some("xyz"));
    assert_eq!(extract("BEARER xyz"), Some("xyz"));
}

#[test]
fn extract_keeps_trailing_spaces() {
    assert_eq!(extract("bearer   abc  "), Some("abc  "));
}

#[test]
fn extract_stops_at_line_feed() {
    assert_eq!(extract("Bearer abc\n"), Some("abc"));
    assert_eq!(extract("Bearer abc\n \t"), Some("abc"));
}

#[test]
fn extract_refuses_text_after_a_line_break() {
    assert_eq!(extract("Bearer a\nb"), None);
}

#[test]
fn extract_without_separator() {
    assert_eq!(extract("Bearerabc"), Some("abc"));
}

#[test]
fn extract_only_spaces_gives_last_space() {
    assert_eq!(extract("Bearer "), Some(" "));
    assert_eq!(extract("Bearer    "), Some(" "));
    assert_eq!(extract("Bearer \n\n"), Some(" "));
}

#[test]
fn extract_nothing_after_scheme() {
    assert_eq!(extract("Bearer"), None);
    assert_eq!(extract("Bearer\n"), None);
}

#[test]
fn extract_other_scheme() {
    assert_eq!(extract("Basic abc"), None);
    assert_eq!(extract(""), None);
    assert_eq!(extract(" Bearer abc"), None);
}

#[test]
fn extract_unicode_spaces() {
    assert_eq!(extract("Bearer\u{a0}\u{3000}tok"), Some("tok"));
    assert_eq!(extract("Bearer \u{e9}t\u{e9}"), Some("\u{e9}t\u{e9}"));
}

#[test]
fn extract_agrees_with_the_pattern_on_short_headers() {
    let re = pattern();
    let alphabet = ['a', ' ', '\n', '\t', '\u{a0}', '\r', '.', '\u{2028}'];
    let prefixes = ["Bearer", "bearer", "BeArEr", "Beare", "Bearex"];
    for prefix in prefixes.iter() {
        let mut tails: Vec<String> = vec![String::new()];
        for _len in 0..4 {
            let mut next = Vec::new();
            for t in tails.iter() {
                for c in alphabet.iter() {
                    let mut s = t.clone();
                    s.push(*c);
                    next.push(s);
                }
            }
            for t in next.iter() {
                let key = format!("{}{}", prefix, t);
                assert_eq!(extract(&key).map(|s| s.to_string()), reference(&re, &key), "{:?}", key);
            }
            tails = next;
        }
    }
}

#[test]
fn extract_white_space_agrees_with_the_pattern() {
    let re = pattern();
    for code in 0u32..0x11000 {
        if let Some(c) = char::from_u32(code) {
            let key = format!("Bearer{}x", c);
            assert_eq!(extract(&key).map(|s| s.to_string()), reference(&re, &key), "U+{:04X}", code);
        }
    }
}

#[test]
fn bearer_token_from_header() {
    assert!(matches!(BearerToken::from_header(None), Err(BearerTokenError::Missing)));
    assert!(matches!(BearerToken::from_header(Some("Token abc")), Err(BearerTokenError::Missing)));
    match BearerToken::from_header(Some("Bearer abc")) {
        Ok(t) => assert_eq!(t.0, "abc"),
        Err(_) => panic!("expected a token"),
    }
}

#[test]
fn extract_scheme_letters_agree_with_the_pattern() {
    let re = pattern();
    let word: Vec<char> = "bearer".chars().collect();
    for pos in 0..word.len() {
        for code in 0u32..0x3000 {
            if let Some(c) = char::from_u32(code) {
                let mut key: String = String::new();
                for (i, w) in word.iter().enumerate() {
                    key.push(if i == pos { c } else { *w });
                }
                key.push_str(" tok");
                assert_eq!(extract(&key).map(|s| s.to_string()), reference(&re, &key), "{:?}", key);
            }
        }
    }
}
