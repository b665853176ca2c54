use xpm::chars::char_is_whitespace;
use xpm::split::{split_fields, split_lines, split_pieces, trim};
use xpm::text::{from_chars, to_chars};

fn texts(list: Vec<Vec<char>>) -> Vec<String> {
    list.into_iter().map(|run| run.into_iter().collect()).collect()
}

const SAMPLES: [&str; 22] = [
    "",
    "\n",
    "\r",
    "\r\n",
    "a",
    "a\n",
    "a\r",
    "a\r\n",
    "a\n\nb",
    "a\r\n\r\nb\r",
    "a\r\r\nb",
    "\na",
    "one two\tthree",
    "  lead and trail \u{a0}\n",
    "\u{3000}wide\u{2003}space\u{85}",
    "x;y;;z;",
    ";",
    "Name=Files\nExec=/usr/bin/files %U\nNoDisplay=true\n",
    "a-b_c",
    "-",
    "core 1.0 -> 2.0",
    "\u{1680}\u{2028}\u{2029}\u{202f}\u{205f}",
];

#[test]
fn whitespace_agrees_with_std_on_every_character() {
    for code in 0..=0x10ffffu32 {
        if let Some(c) = char::from_u32(code) {
            assert_eq!(char_is_whitespace(c), c.is_whitespace(), "U+{:04X}", code);
        }
    }
}

#[test]
fn lines_agree_with_std() {
    for text in SAMPLES {
        let expected: Vec<String> = text.lines().map(String::from).collect();
        assert_eq!(texts(split_lines(&to_chars(text))), expected, "{:?}", text);
    }
}

#[test]
fn lines_keep_a_carriage_return_that_no_line_feed_follows() {
    assert_eq!(texts(split_lines(&to_chars("a\rb\r"))), vec!["a\rb\r"]);
    assert_eq!(texts(split_lines(&to_chars("a\r\nb"))), vec!["a", "b"]);
    assert_eq!(texts(split_lines(&to_chars("a\n"))), vec!["a"]);
    assert_eq!(texts(split_lines(&to_chars("\n\n"))), vec!["", ""]);
    assert!(split_lines(&to_chars("")).is_empty());
}

#[test]
fn trim_agrees_with_std() {
    for text in SAMPLES {
        let got: String = trim(&to_chars(text)).into_iter().collect();
        assert_eq!(got, text.trim(), "{:?}", text);
    }
}

#[test]
fn fields_agree_with_std() {
    for text in SAMPLES {
        let expected: Vec<String> = text.split_whitespace().map(String::from).collect();
        assert_eq!(texts(split_fields(&to_chars(text))), expected, "{:?}", text);
    }
}

#[test]
fn pieces_agree_with_std() {
    for text in SAMPLES {
        let expected: Vec<String> = text.split(';').map(String::from).collect();
        assert_eq!(texts(split_pieces(&to_chars(text), &vec![';'])), expected, "{:?}", text);
        let expected: Vec<String> =
            text.split(|c: char| c == '-' || c == '_').map(String::from).collect();
        assert_eq!(texts(split_pieces(&to_chars(text), &vec!['-', '_'])), expected, "{:?}", text);
    }
}

#[test]
fn characters_round_trip() {
    for text in SAMPLES {
        let chars = to_chars(text);
        assert_eq!(chars, text.chars().collect::<Vec<char>>());
        assert_eq!(from_chars(&chars, 0, chars.len()), text);
    }
    let chars = to_chars("héllo");
    assert_eq!(from_chars(&chars, 1, 3), "él");
}
