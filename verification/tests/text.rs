use sasl2_sys::text::{contains, decimal, parse_u8, replace_all, split_lines, to_chars};
use std::io::BufRead;

fn chars(s: &str) -> Vec<char> {
    s.chars().collect()
}

fn lines_as_strings(text: &str) -> Vec<String> {
    split_lines(text).into_iter().map(|l| l.into_iter().collect()).collect()
}

#[test]
fn to_chars_gives_each_character() {
    assert_eq!(to_chars(""), Vec::<char>::new());
    assert_eq!(to_chars("a\u{e9}\u{4e2d}z"), vec!['a', '\u{e9}', '\u{4e2d}', 'z']);
}

#[test]
fn contains_agrees_with_std() {
    let haystacks = ["", "a", "darwin", "x86_64-apple-darwin", "aarch64-apple-darwin20", "darwi", "ddarwin", "x86_64-unknown-linux-gnu", "dar\u{e9}win"];
    let needles = ["", "a", "darwin", "win", "x86", "gnu", "\u{e9}", "darwin2", "unknown-linux-gnu"];
    for h in haystacks {
        for n in needles {
            assert_eq!(contains(h, n), h.contains(n), "{:?} in {:?}", n, h);
        }
    }
}

#[test]
fn replace_all_agrees_with_std_for_patterns_that_are_not_empty() {
    let texts = ["", "a", "aa", "aaa", "aaaa", "abab", "ababa", "x86_64-unknown-linux-gnu", "unknown-linux-gnuunknown-linux-gnu", "unknown-linux-gn", "\u{e9}ab\u{e9}"];
    let patterns = ["a", "aa", "ab", "aba", "unknown-linux-gnu", "\u{e9}", "zzz"];
    let fills = ["", "b", "aa", "linux-gnu"];
    for t in texts {
        for p in patterns {
            for f in fills {
                assert_eq!(replace_all(t, p, f), t.replace(p, f), "{:?} {:?} {:?}", t, p, f);
            }
        }
    }
}

#[test]
fn replace_all_leaves_the_text_alone_for_an_empty_pattern() {
    assert_eq!(replace_all("abc", "", "x"), "abc");
    assert_eq!(replace_all("", "", "x"), "");
}

#[test]
fn replace_all_writes_the_packaging_triple() {
    assert_eq!(
        replace_all("x86_64-unknown-linux-gnu", "unknown-linux-gnu", "linux-gnu"),
        "x86_64-linux-gnu"
    );
    assert_eq!(
        replace_all("aarch64-unknown-linux-musl", "unknown-linux-gnu", "linux-gnu"),
        "aarch64-unknown-linux-musl"
    );
}

#[test]
fn split_lines_agrees_with_buffered_reading() {
    let texts = [
        "", "\n", "\n\n", "a", "a\n", "a\nb", "a\nb\n", "a\r\nb\r\n", "a\r", "a\r\r\n", "\r\n", "\r",
        "a\n\nb", "2\n1\n27\n", "# 1 \"version.c\"\n# 1 \"<built-in>\"\n\n2\n1\n27\n", "x\ny\r",
    ];
    for t in texts {
        let expected: Vec<String> = t.as_bytes().lines().map(|l| l.unwrap()).collect();
        assert_eq!(lines_as_strings(t), expected, "{:?}", t);
    }
}

#[test]
fn split_lines_keeps_an_unfinished_last_line() {
    assert_eq!(lines_as_strings("2\n1\n27"), vec!["2", "1", "27"]);
    assert_eq!(lines_as_strings("2\r\n1\r\n27\r"), vec!["2", "1", "27\r"]);
}

#[test]
fn parse_u8_agrees_with_std_on_short_texts() {
    let alphabet = ['0', '1', '2', '5', '6', '9', '+', '-', ' ', 'a', '\u{661}'];
    let mut texts: Vec<String> = vec![String::new()];
    let mut layer: Vec<String> = vec![String::new()];
    for _ in 0..4 {
        let mut next: Vec<String> = Vec::new();
        for t in &layer {
            for c in alphabet {
                let mut longer = t.clone();
                longer.push(c);
                next.push(longer);
            }
        }
        texts.extend(next.iter().cloned());
        layer = next;
    }
    for t in texts {
        assert_eq!(parse_u8(&chars(&t)), t.parse::<u8>().ok(), "{:?}", t);
    }
}

#[test]
fn parse_u8_reads_the_edges_of_its_range() {
    assert_eq!(parse_u8(&chars("0")), Some(0));
    assert_eq!(parse_u8(&chars("255")), Some(255));
    assert_eq!(parse_u8(&chars("256")), None);
    assert_eq!(parse_u8(&chars("+27")), Some(27));
    assert_eq!(parse_u8(&chars("0000000027")), Some(27));
    assert_eq!(parse_u8(&chars("")), None);
    assert_eq!(parse_u8(&chars("+")), None);
    assert_eq!(parse_u8(&chars("-1")), None);
    assert_eq!(parse_u8(&chars("27 ")), None);
    assert_eq!(parse_u8(&chars("99999999999999999999999")), None);
}

#[test]
fn decimal_writes_every_number_as_std_does() {
    for n in 0..=255u8 {
        assert_eq!(decimal(n), n.to_string());
    }
}

#[test]
fn decimal_is_read_back_by_parse_u8() {
    for n in 0..=255u8 {
        assert_eq!(parse_u8(&chars(&decimal(n))), Some(n));
    }
}
