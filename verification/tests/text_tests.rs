use translate_me::text::{
    chars_of, concat_strs, str_eq, str_eq_ignore_ascii_case, trim_end_matches_char, trim_str,
    white_space,
};

#[test]
fn white_space_agrees_with_std_on_every_char() {
    for n in 0u32..=0x10FFFF {
        if let Some(c) = char::from_u32(n) {
            assert_eq!(white_space(c), c.is_whitespace(), "U+{:04X}", n);
        }
    }
}

fn samples() -> Vec<String> {
    vec![
        "".to_string(),
        " ".to_string(),
        "hello".to_string(),
        "  hello  ".to_string(),
        "\t\n hello world \r\n".to_string(),
        "\u{3000}你好\u{3000}".to_string(),
        "\u{200B}zero width\u{200B}".to_string(),
        "\u{85}\u{a0}x\u{2028}\u{2029}".to_string(),
        "  a  b  ".to_string(),
        "\u{1680}\u{2000}\u{200A}\u{202F}\u{205F}".to_string(),
        "///".to_string(),
        "https://api.deepseek.com/v1//".to_string(),
        "a/b/".to_string(),
    ]
}

#[test]
fn trim_agrees_with_std() {
    for s in samples() {
        assert_eq!(trim_str(&s), s.trim(), "{:?}", s);
    }
}

#[test]
fn trim_is_idempotent_on_samples() {
    for s in samples() {
        let once = trim_str(&s).to_string();
        assert_eq!(trim_str(&once), once.as_str());
    }
}

#[test]
fn trim_end_matches_agrees_with_std() {
    for s in samples() {
        assert_eq!(trim_end_matches_char(&s, '/'), s.trim_end_matches('/'), "{:?}", s);
    }
}

#[test]
fn eq_ignore_ascii_case_agrees_with_std() {
    let words = ["auto", "AUTO", "Auto", "aUtO", "autos", "aut", "", "ａｕｔｏ", "AUTÖ", "auto ", "English", "ENGLISH", "é", "É"];
    for a in words.iter() {
        for b in words.iter() {
            assert_eq!(str_eq_ignore_ascii_case(a, b), a.eq_ignore_ascii_case(b), "{:?} {:?}", a, b);
        }
    }
}

#[test]
fn str_eq_and_concat() {
    assert!(str_eq("summon", "summon"));
    assert!(!str_eq("summon", "Summon"));
    assert!(!str_eq("quit", "quit "));
    assert_eq!(concat_strs("ab", "çd"), "abçd");
    assert_eq!(chars_of("a你b"), vec!['a', '你', 'b']);
}
