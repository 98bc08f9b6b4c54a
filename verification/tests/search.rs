use dataset::search::{contains_text, find, matches_at, to_chars};

fn chars(text: &str) -> Vec<char> {
    text.chars().collect()
}

#[test]
fn to_chars_gives_each_character() {
    assert_eq!(to_chars("héllo"), vec!['h', 'é', 'l', 'l', 'o']);
    assert_eq!(to_chars(""), Vec::<char>::new());
}

#[test]
fn contains_text_finds_a_part() {
    assert!(contains_text("hello world", "hello"));
    assert!(contains_text("hello world", "lo wo"));
    assert!(contains_text("hello world", "world"));
    assert!(contains_text("hello world", "d"));
    assert!(contains_text("hello world", "hello world"));
}

#[test]
fn contains_text_rejects_what_is_not_there() {
    assert!(!contains_text("hello world", "worlds"));
    assert!(!contains_text("hello world", "helo"));
    assert!(!contains_text("hello", "hello world"));
    assert!(!contains_text("", "a"));
}

#[test]
fn contains_text_of_the_empty_needle() {
    assert!(contains_text("hello", ""));
    assert!(contains_text("", ""));
}

#[test]
fn contains_text_is_case_sensitive() {
    assert!(!contains_text("Hello", "hello"));
    assert!(!contains_text("hello", "H"));
    assert!(contains_text("Hello", "H"));
}

#[test]
fn contains_text_knows_no_patterns() {
    assert!(!contains_text("abc", "a.c"));
    assert!(!contains_text("abc", "a*"));
    assert!(!contains_text("abc", "^a"));
    assert!(contains_text("a.c", "a.c"));
    assert!(contains_text("tags: x,y", "x,y"));
}

#[test]
fn contains_text_after_a_false_start() {
    assert!(contains_text("aaab", "aab"));
    assert!(contains_text("abababc", "ababc"));
    assert!(!contains_text("ababab", "ababc"));
}

#[test]
fn contains_text_beyond_ascii() {
    assert!(contains_text("données brutes", "ées"));
    assert!(!contains_text("données", "donnees"));
    assert!(contains_text("数据集", "据"));
}

#[test]
fn find_gives_the_first_position() {
    assert_eq!(find(&chars("abcabc"), &chars("bc")), Some(1));
    assert_eq!(find(&chars("abcabc"), &chars("abc")), Some(0));
    assert_eq!(find(&chars("abcabc"), &chars("cab")), Some(2));
    assert_eq!(find(&chars("abcabc"), &chars("")), Some(0));
    assert_eq!(find(&chars("abcabc"), &chars("abcabc")), Some(0));
    assert_eq!(find(&chars("xxabc"), &chars("abc")), Some(2));
}

#[test]
fn find_gives_nothing_without_a_match() {
    assert_eq!(find(&chars("abcabc"), &chars("cb")), None);
    assert_eq!(find(&chars("abc"), &chars("abcd")), None);
    assert_eq!(find(&chars(""), &chars("a")), None);
}

#[test]
fn find_counts_characters_not_bytes() {
    assert_eq!(find(&chars("ééa"), &chars("a")), Some(2));
}

#[test]
fn matches_at_compares_in_place() {
    let text = chars("hello");
    assert!(matches_at(&text, &chars("ell"), 1));
    assert!(!matches_at(&text, &chars("ell"), 0));
    assert!(!matches_at(&text, &chars("ell"), 2));
    assert!(matches_at(&text, &chars(""), 5));
    assert!(matches_at(&text, &chars("hello"), 0));
}

#[test]
fn matches_at_beyond_the_end() {
    let text = chars("hello");
    assert!(!matches_at(&text, &chars("lo"), 4));
    assert!(!matches_at(&text, &chars(""), 6));
    assert!(!matches_at(&text, &chars("hello!"), 0));
    assert!(!matches_at(&text, &chars("o"), usize::MAX));
}
