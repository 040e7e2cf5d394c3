use pactool::text::{chars_of, has_y, is_space, says_y, split_lines, strip_line_ending, trim};
use std::io::BufRead;

/// Every text of at most `len` characters over `alphabet`.
fn texts_over(alphabet: &[char], len: usize) -> Vec<String> {
    let mut all = vec![String::new()];
    let mut last = vec![String::new()];
    for _ in 0..len {
        let mut next = Vec::new();
        for text in &last {
            for c in alphabet {
                let mut longer = text.clone();
                longer.push(*c);
                next.push(longer);
            }
        }
        all.extend(next.iter().cloned());
        last = next;
    }
    all
}

#[test]
fn chars_come_in_order() {
    assert_eq!(chars_of("1425"), vec!['1', '4', '2', '5']);
    assert_eq!(chars_of("é\u{3000}z"), vec!['é', '\u{3000}', 'z']);
    assert_eq!(chars_of(""), Vec::<char>::new());
}

#[test]
fn trim_cuts_both_ends() {
    assert_eq!(trim("  1425 \n"), "1425");
    assert_eq!(trim("\t\u{3000}a b\u{a0}\r\n"), "a b");
    assert_eq!(trim("7\n"), "7");
    assert_eq!(trim("é"), "é");
}

#[test]
fn trim_of_blank_text_is_empty() {
    assert_eq!(trim(" \n"), "");
    assert_eq!(trim("\u{2003}\u{2028}"), "");
    assert_eq!(trim(""), "");
}

#[test]
fn trim_keeps_inner_white_space() {
    assert_eq!(trim(" 1 2\t3 "), "1 2\t3");
}

#[test]
fn trim_leaves_look_alikes() {
    // Zero-width space and the Mongolian vowel separator are no white space.
    assert_eq!(trim("\u{200b}x\u{180e}"), "\u{200b}x\u{180e}");
}

#[test]
fn white_space_is_what_the_standard_library_says() {
    let mut count = 0;
    let mut code: u32 = 0;
    while code <= 0x10ffff {
        if let Some(c) = char::from_u32(code) {
            assert_eq!(is_space(c), c.is_whitespace(), "U+{:04X}", code);
            if is_space(c) {
                count += 1;
            }
        }
        code += 1;
    }
    assert_eq!(count, 25);
}

#[test]
fn trim_agrees_with_the_standard_library() {
    for text in texts_over(&[' ', '\n', 'a', '\u{a0}', '\u{200b}', 'é'], 5) {
        assert_eq!(trim(&text), text.trim(), "{:?}", text);
    }
}

#[test]
fn a_y_is_found_anywhere() {
    assert!(has_y("y"));
    assert!(has_y("Y\n"));
    assert!(has_y("  yes please"));
    assert!(has_y("nay"));
    assert!(has_y("okaY"));
}

#[test]
fn no_y_is_found_where_none_is() {
    assert!(!has_y("n"));
    assert!(!has_y("N\n"));
    assert!(!has_y(""));
    assert!(!has_y("\n"));
    assert!(!has_y("no thanks"));
    assert!(!has_y("1"));
    assert!(!has_y("ｙ"));
}

#[test]
fn a_y_is_a_y_after_lowercasing() {
    let mut code: u32 = 0;
    while code <= 0x10ffff {
        if let Some(c) = char::from_u32(code) {
            let reply = format!("n{}\n", c);
            assert_eq!(
                has_y(&reply),
                reply.trim().to_lowercase().contains("y"),
                "U+{:04X}",
                code
            );
        }
        code += 1;
    }
}

#[test]
fn plain_y_is_a_y_alone() {
    assert!(says_y("y"));
    assert!(says_y("y\n"));
    assert!(says_y("y\r\n"));
    assert!(says_y("  y \t\n"));
}

#[test]
fn anything_but_a_plain_y_is_none() {
    assert!(!says_y(""));
    assert!(!says_y("\n"));
    assert!(!says_y("n"));
    assert!(!says_y("no"));
    assert!(!says_y("x"));
    assert!(!says_y("nay"));
    assert!(!says_y("maybe"));
    assert!(!says_y("yes"));
    assert!(!says_y("Y"));
    assert!(!says_y("yy"));
    assert!(!says_y("y y"));
    assert!(!says_y("ｙ"));
}

#[test]
fn plain_y_for_every_character() {
    let mut code: u32 = 0;
    while code <= 0x10ffff {
        if let Some(c) = char::from_u32(code) {
            assert_eq!(says_y(&format!(" {}\n", c)), c == 'y', "U+{:04X}", code);
            assert_eq!(says_y(&format!("y{}\n", c)), c.is_whitespace(), "U+{:04X}", code);
        }
        code += 1;
    }
}

#[test]
fn line_ending_is_cut() {
    assert_eq!(strip_line_ending("1425\n"), "1425");
    assert_eq!(strip_line_ending("1425\r\n"), "1425");
    assert_eq!(strip_line_ending("1425"), "1425");
    assert_eq!(strip_line_ending("\n"), "");
    assert_eq!(strip_line_ending("\r\n"), "");
    assert_eq!(strip_line_ending(""), "");
}

#[test]
fn nothing_but_the_line_ending_is_cut() {
    assert_eq!(strip_line_ending(" 1 \n"), " 1 ");
    assert_eq!(strip_line_ending(" "), " ");
    assert_eq!(strip_line_ending("\t\n"), "\t");
    assert_eq!(strip_line_ending("1\n\n"), "1\n");
    assert_eq!(strip_line_ending("1\r"), "1\r");
    assert_eq!(strip_line_ending("1\r\r\n"), "1\r");
    assert_eq!(strip_line_ending("1\n\r"), "1\n\r");
    assert_eq!(strip_line_ending("é\u{2028}\n"), "é\u{2028}");
}

#[test]
fn line_ending_agrees_with_the_standard_library() {
    for text in texts_over(&['a', ' ', '\n', '\r', 'é'], 5) {
        let expected = match text.strip_suffix('\n') {
            Some(rest) => rest.strip_suffix('\r').unwrap_or(rest),
            None => text.as_str(),
        };
        assert_eq!(strip_line_ending(&text), expected, "{:?}", text);
    }
}

#[test]
fn lines_end_at_line_feeds() {
    assert_eq!(split_lines("a\nb\n"), vec!["a", "b"]);
    assert_eq!(split_lines("a\nb"), vec!["a", "b"]);
    assert_eq!(split_lines("libfoo\nlibbar\nbaz-git\n"), vec!["libfoo", "libbar", "baz-git"]);
}

#[test]
fn no_text_has_no_lines() {
    assert_eq!(split_lines(""), Vec::<String>::new());
}

#[test]
fn empty_lines_are_lines() {
    assert_eq!(split_lines("\n"), vec![""]);
    assert_eq!(split_lines("a\n\nb\n"), vec!["a", "", "b"]);
    assert_eq!(split_lines("\n\n"), vec!["", ""]);
}

#[test]
fn carriage_return_goes_with_its_line_feed() {
    assert_eq!(split_lines("a\r\nb\r\n"), vec!["a", "b"]);
    assert_eq!(split_lines("\r\n"), vec![""]);
    assert_eq!(split_lines("a\r\r\n"), vec!["a\r"]);
    assert_eq!(split_lines("a\rb\n"), vec!["a\rb"]);
}

#[test]
fn carriage_return_stays_without_line_feed() {
    assert_eq!(split_lines("a\r"), vec!["a\r"]);
    assert_eq!(split_lines("a\nb\r"), vec!["a", "b\r"]);
    assert_eq!(split_lines("\r"), vec!["\r"]);
}

#[test]
fn lines_hold_any_character() {
    assert_eq!(split_lines("é ü\n\u{3000}\n"), vec!["é ü", "\u{3000}"]);
}

#[test]
fn lines_agree_with_the_standard_library() {
    for text in texts_over(&['a', '\n', '\r', 'é'], 6) {
        let expected: Vec<String> = text.as_bytes().lines().map(|line| line.unwrap()).collect();
        assert_eq!(split_lines(&text), expected, "{:?}", text);
    }
}
