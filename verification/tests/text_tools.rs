use kilo_executor::text::{nonblank_complete_lines, split_words, trim_str};

#[test]
fn trim_matches_std_trim() {
    let samples = [
        "",
        "   ",
        "  abc  ",
        "\t\n x y \r\n",
        "\u{a0}\u{2003}word\u{205f}\u{3000}",
        "\u{85}line\u{2028}",
        "no-space",
        "\u{180e}kept\u{200b}",
    ];
    for s in samples {
        assert_eq!(trim_str(s), s.trim(), "trimming {:?}", s);
    }
}

#[test]
fn white_space_matches_char_is_whitespace() {
    for code in 0u32..0x3100 {
        if let Some(c) = char::from_u32(code) {
            let s = c.to_string();
            assert_eq!(trim_str(&s).is_empty(), c.is_whitespace(), "char {:#x}", code);
        }
    }
}

#[test]
fn split_words_matches_std() {
    let samples = [
        "npx -y @kilocode/cli@latest",
        "  a  b\tc\n",
        "",
        "   ",
        "one",
        "x\u{3000}y",
    ];
    for s in samples {
        let expected: Vec<String> = s.split_whitespace().map(|w| w.to_string()).collect();
        assert_eq!(split_words(s), expected, "splitting {:?}", s);
    }
}

#[test]
fn complete_lines_are_trimmed_and_blank_ones_dropped() {
    let lines = nonblank_complete_lines("  {\"a\":1}  \n\n   \nsecond\npartial");
    assert_eq!(lines, vec!["{\"a\":1}".to_string(), "second".to_string()]);
}

#[test]
fn text_without_line_feed_has_no_complete_line() {
    assert!(nonblank_complete_lines("no line feed yet").is_empty());
    assert!(nonblank_complete_lines("").is_empty());
}

#[test]
fn complete_lines_match_split_inclusive() {
    let s = "a\n b \n\nc\r\nd";
    let expected: Vec<String> = s
        .split_inclusive('\n')
        .filter(|l| l.ends_with('\n'))
        .map(|l| l.trim().to_string())
        .filter(|l| !l.is_empty())
        .collect();
    assert_eq!(nonblank_complete_lines(s), expected);
}

#[test]
fn trimming_twice_is_trimming_once() {
    for s in ["  a b  ", "\n\t", "x", " \u{2009}y\u{a0}"] {
        let once = trim_str(s);
        assert_eq!(trim_str(&once), once);
    }
}
