use unbound::token::{load_token, trim_white_space};

#[test]
fn missing_or_blank_storage_is_no_token() {
    assert_eq!(load_token(None), None);
    assert_eq!(load_token(Some(String::new())), None);
    assert_eq!(load_token(Some(" \n\t ".to_string())), None);
    assert_eq!(load_token(Some("\u{3000}\u{a0}".to_string())), None);
}

#[test]
fn stored_token_is_trimmed() {
    assert_eq!(load_token(Some("abc.def\n".to_string())), Some("abc.def".to_string()));
    assert_eq!(load_token(Some("  eyJ0 x  ".to_string())), Some("eyJ0 x".to_string()));
    assert_eq!(load_token(Some("tok".to_string())), Some("tok".to_string()));
}

#[test]
fn trimming_agrees_with_std() {
    let samples = [
        "",
        "a",
        "  a  ",
        "\t\r\n token \u{2028}",
        "\u{85}x\u{200a}",
        "\u{180e}x",
        "é ü",
        " \u{feff}",
        "mid  dle",
    ];
    for s in samples {
        assert_eq!(trim_white_space(s), s.trim(), "{s:?}");
    }
}

#[test]
fn loaded_token_reloads_unchanged() {
    let first = load_token(Some(" \tabc \n".to_string())).unwrap();
    let second = load_token(Some(first.clone())).unwrap();
    assert_eq!(first, second);
}
