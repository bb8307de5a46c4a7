use vam_downloader::number::{parse_number, to_decimal};
use vam_downloader::text::{
    characters, contains, ends_with, from_characters, lines, same_text, starts_with, trim,
    white_space,
};

#[test]
fn characters_are_taken_apart_and_put_together() {
    let chars = characters("a\u{e9}\u{1f600}z");
    assert_eq!(chars, vec!['a', '\u{e9}', '\u{1f600}', 'z']);
    assert_eq!(from_characters(&chars, 1, 3), "\u{e9}\u{1f600}");
    assert_eq!(from_characters(&chars, 2, 2), "");
}

#[test]
fn parts_are_found_where_std_finds_them() {
    let texts = ["", "a", "ab", "aab", "abab", "http://x", "connection", "\u{e9}ab"];
    for s in texts {
        for part in texts {
            assert_eq!(contains(s, part), s.contains(part), "{:?} in {:?}", part, s);
            assert_eq!(starts_with(s, part), s.starts_with(part));
            assert_eq!(ends_with(s, part), s.ends_with(part));
            assert_eq!(same_text(s, part), s == part);
        }
    }
}

#[test]
fn white_space_is_unicode_white_space() {
    for code in 0..=0x10ffffu32 {
        if let Some(c) = char::from_u32(code) {
            assert_eq!(white_space(c), c.is_whitespace(), "{:x}", code);
        }
    }
}

#[test]
fn trim_takes_white_space_from_both_ends() {
    for s in ["", " ", "a", " a ", "\t\r\na b\u{a0}\u{3000}", "  \u{2003}x", "x\u{200b} "] {
        assert_eq!(trim(s), s.trim());
    }
}

#[test]
fn lines_end_with_line_feeds() {
    for s in [
        "",
        "a",
        "a\n",
        "\n",
        "a\nb",
        "a\r\nb\r\n",
        "foo\r\nbar\n\nbaz\r",
        "\r\r\n\rx",
        "\n\n",
    ] {
        let expected: Vec<String> = s.lines().map(String::from).collect();
        assert_eq!(lines(s), expected, "{:?}", s);
    }
}

#[test]
fn numbers_are_written_in_decimal() {
    for n in [0, 7, 9, 10, 11, 99, 100, 12345, usize::MAX] {
        assert_eq!(to_decimal(n), n.to_string());
    }
}

#[test]
fn numbers_are_read_as_std_reads_them() {
    for s in [
        "0",
        "5",
        "+5",
        "007",
        "",
        "+",
        "++5",
        "-1",
        " 5",
        "5 ",
        "1_000",
        "0x10",
        "\u{661}",
        "18446744073709551615",
        "18446744073709551616",
        "99999999999999999999999999",
    ] {
        assert_eq!(parse_number(s), s.parse::<usize>().ok(), "{:?}", s);
    }
}
