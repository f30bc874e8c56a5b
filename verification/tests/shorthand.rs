use regex::Regex;
use yopts::extract_short_long_name;

const PATTERN: &str = r"^-(?P<short>[a-zA-Z])(/--(?P<long>[a-zA-Z][a-zA-Z0-9-]{1,}))*|^--(?P<only_long>[a-zA-Z][a-zA-Z0-9-]{1,})$";

/// What the pattern captures in a text: the first character of its short
/// capture, and its long capture.
fn by_pattern(pattern: &Regex, haystack: &str) -> (Option<char>, Option<String>) {
    match pattern.captures(haystack) {
        Some(captures) => {
            let short = captures.name("short").and_then(|m| m.as_str().chars().next());
            let long = captures
                .name("long")
                .or(captures.name("only_long"))
                .map(|m| m.as_str().to_string());
            (short, long)
        }
        None => (None, None),
    }
}

fn names(short: Option<char>, long: Option<&str>) -> (Option<char>, Option<String>) {
    (short, long.map(|l| l.to_string()))
}

#[test]
fn short_and_long_are_both_read() {
    assert_eq!(names(Some('t'), Some("threads")), extract_short_long_name("-t/--threads"));
    assert_eq!(names(Some('v'), Some("verbose")), extract_short_long_name("-v/--verbose"));
    assert_eq!(names(Some('N'), Some("num-threads")), extract_short_long_name("-N/--num-threads"));
    assert_eq!(names(Some('x'), Some("x2")), extract_short_long_name("-x/--x2"));
}

#[test]
fn long_alone_is_read() {
    assert_eq!(names(None, Some("protocol")), extract_short_long_name("--protocol"));
    assert_eq!(names(None, Some("ab")), extract_short_long_name("--ab"));
    assert_eq!(names(None, Some("a-")), extract_short_long_name("--a-"));
    assert_eq!(names(None, Some("dry-run")), extract_short_long_name("--dry-run"));
}

#[test]
fn short_alone_is_read() {
    assert_eq!(names(Some('s'), None), extract_short_long_name("-s"));
    assert_eq!(names(Some('Z'), None), extract_short_long_name("-Z"));
}

#[test]
fn a_longer_short_text_gives_its_first_letter() {
    assert_eq!(names(Some('v'), None), extract_short_long_name("-verbose"));
    assert_eq!(names(Some('v'), None), extract_short_long_name("-v --verbose"));
    assert_eq!(names(Some('v'), None), extract_short_long_name("-v--verbose"));
}

#[test]
fn texts_that_name_nothing() {
    for text in ["", "SRC", "DST", "-", "--", "---", "-1", "--a", "--1ab", "verbose", "/-ab", "- v", "--ab cd", "--ab/"] {
        assert_eq!((None, None), extract_short_long_name(text), "{:?}", text);
    }
}

#[test]
fn a_word_needs_two_characters() {
    assert_eq!(names(Some('t'), None), extract_short_long_name("-t/--x"));
    assert_eq!(names(Some('t'), Some("xy")), extract_short_long_name("-t/--xy"));
    assert_eq!((None, None), extract_short_long_name("--x"));
}

#[test]
fn the_last_group_of_a_chain_counts() {
    assert_eq!(names(Some('t'), Some("tries")), extract_short_long_name("-t/--threads/--tries"));
    assert_eq!(names(Some('t'), Some("threads")), extract_short_long_name("-t/--threads/--x"));
    assert_eq!(names(Some('t'), Some("threads")), extract_short_long_name("-t/--threads rest"));
}

#[test]
fn a_long_flag_is_the_whole_text() {
    assert_eq!(names(None, Some("ab--cd")), extract_short_long_name("--ab--cd"));
    for text in ["foo--bar", "a----bc", "/--ab", "/--ab--ab", " --ab", "x--ab", "---ab", "--ab ", "--ab\n"] {
        assert_eq!((None, None), extract_short_long_name(text), "{:?}", text);
    }
}

#[test]
fn a_text_without_a_leading_hyphen_names_nothing() {
    for text in ["", "SRC", "a-b", "a--bc", "t/--threads", "v", " -v", "/-v/--verbose", "é--ab"] {
        assert_eq!((None, None), extract_short_long_name(text), "{:?}", text);
    }
}

#[test]
fn only_ascii_letters_count() {
    assert_eq!((None, None), extract_short_long_name("-é"));
    assert_eq!((None, None), extract_short_long_name("--été"));
    assert_eq!(names(Some('e'), None), extract_short_long_name("-e/--été"));
    assert_eq!((None, None), extract_short_long_name("é--ab"));
}

#[test]
fn agrees_with_the_pattern_on_chosen_texts() {
    let pattern = Regex::new(PATTERN).unwrap();
    let texts = [
        "", "-", "--", "-t", "-t/", "-t/-", "-t/--", "-t/--a", "-t/--ab", "-t/--ab/--cd",
        "-t/--ab/--c", "-t/--ab--cd", "-t/--a1-", "-t/--1a", "-tt/--ab", "--t/--ab", "--ab",
        "--ab/--cd", "--ab-", "--ab--", "x--ab", "x --ab", "--ab\n", "-t\n", "\n--ab", "-T/--AB",
        "-t/--ab/--cd/--ef", "-t/--ab/", "-t/--ab/--", "SRC", "DST", "-9", "--9ab", "-_", "--a_b",
        "-v/--verbose", "-t/--threads", "--protocol", "-é", "--été", "é--ab", "--ab--cd--ef",
        "a--b--cd", "------ab", "-a-", "-a--bc", "-/--ab", "/--ab",
    ];
    for text in texts {
        assert_eq!(by_pattern(&pattern, text), extract_short_long_name(text), "{:?}", text);
    }
}

#[test]
fn agrees_with_the_pattern_on_all_short_texts() {
    let pattern = Regex::new(PATTERN).unwrap();
    let alphabet = ['-', '/', 'a', 'Z', '7', ' '];
    let mut texts: Vec<String> = vec![String::new()];
    let mut from = 0;
    for _ in 0..6 {
        let upto = texts.len();
        for i in from..upto {
            for c in alphabet {
                let mut longer = texts[i].clone();
                longer.push(c);
                texts.push(longer);
            }
        }
        from = upto;
    }
    assert_eq!(1 + 6 + 36 + 216 + 1296 + 7776 + 46656, texts.len());
    for text in &texts {
        assert_eq!(by_pattern(&pattern, text), extract_short_long_name(text), "{:?}", text);
    }
}

#[test]
fn agrees_with_the_pattern_on_chains_of_groups() {
    let pattern = Regex::new(PATTERN).unwrap();
    let pieces = ["-t", "/--ab", "/--c", "--de", "/", "-", "x9", "/--f-g"];
    let mut texts: Vec<String> = vec![String::new()];
    let mut from = 0;
    for _ in 0..5 {
        let upto = texts.len();
        for i in from..upto {
            for piece in pieces {
                texts.push(format!("{}{}", texts[i], piece));
            }
        }
        from = upto;
    }
    for text in &texts {
        assert_eq!(by_pattern(&pattern, text), extract_short_long_name(text), "{:?}", text);
    }
}
