use ebc_hub::words::{is_white_space_char, same_text, split_words};

#[test]
fn white_space_is_unicode_white_space() {
    for u in 0u32..=0x10FFFF {
        if let Some(c) = char::from_u32(u) {
            assert_eq!(is_white_space_char(c), c.is_whitespace(), "char U+{:04X}", u);
        }
    }
}

#[test]
fn split_words_agrees_with_split_whitespace() {
    let lines = [
        "",
        "   ",
        "connect 1",
        "  start 1 DSC-CC 20000 2500 0  ",
        "a\tb\nc\u{3000}d\u{a0}e",
        "battery-type add EVE LF314 LiFePO4 3200 314000",
        "x",
        " x",
        "x ",
        "µΩ mΩ \u{2003} ok",
    ];
    for line in lines {
        let expected: Vec<String> = line.split_whitespace().map(|s| s.to_string()).collect();
        assert_eq!(split_words(line), expected, "line {:?}", line);
    }
}

#[test]
fn words_are_non_blank() {
    for w in split_words(" a  bb\t ccc \n") {
        assert!(!w.is_empty());
        assert!(!w.chars().any(|c| c.is_whitespace()));
    }
}

#[test]
fn same_text_compares_characters() {
    assert!(same_text("DSC-CC", "DSC-CC"));
    assert!(!same_text("DSC-CC", "dsc-cc"));
    assert!(!same_text("DSC-CC", "DSC-C"));
    assert!(same_text("", ""));
    assert!(same_text("µΩ", "µΩ"));
}

#[test]
fn joined_words_split_back() {
    let cases: Vec<Vec<&str>> = vec![vec![], vec!["one"], vec!["start", "1", "DSC-CC", "20000", "2500", "0"], vec!["µΩ", "x"]];
    for ws in cases {
        let joined = ws.join(" ");
        assert_eq!(split_words(&joined), ws.iter().map(|s| s.to_string()).collect::<Vec<String>>());
    }
}
