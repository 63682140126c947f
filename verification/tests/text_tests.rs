use prtgn::text::{join_strings, split_chars, chars_of, split_whitespace, trim_string, with_suffix_string, without_suffix_string, str_ends_with, str_starts_with, string_of, lines_of, str_eq};

fn strings(v: &[&str]) -> Vec<String> {
    v.iter().map(|s| s.to_string()).collect()
}

#[test]
fn chars_round_trip() {
    let s = "a÷π×b";
    assert_eq!(string_of(&chars_of(s)), s);
}

#[test]
fn suffixes() {
    assert!(str_ends_with("song.wav", ".wav"));
    assert!(!str_ends_with("wav", ".wav"));
    assert!(str_starts_with("-v", "-"));
    assert!(!str_starts_with("", "-"));
    assert_eq!(with_suffix_string("song", ".wav"), "song.wav");
    assert_eq!(with_suffix_string("song.wav", ".wav"), "song.wav");
    assert_eq!(without_suffix_string("song.wav", ".wav"), "song");
    assert_eq!(without_suffix_string("song", ".wav"), "song");
    assert!(str_eq("abc", "abc"));
    assert!(!str_eq("abc", "abd"));
}

#[test]
fn join_and_split() {
    let parts = strings(&["0.5", "-1", "0"]);
    let joined = join_strings(&parts, ' ');
    assert_eq!(joined, "0.5 -1 0");
    assert_eq!(split_chars(&chars_of(&joined), ' '), parts);
    assert_eq!(split_chars(&chars_of(""), ' '), strings(&[""]));
    assert_eq!(split_chars(&chars_of("a  b "), ' '), strings(&["a", "", "b", ""]));
    assert_eq!(join_strings(&Vec::new(), ' '), "");
}

#[test]
fn lines_like_std() {
    for text in ["", "a", "a\n", "a\nb", "a\r\nb\r\n", "a\r", "\n\n", "x\r\ry\n"] {
        let expected: Vec<String> = text.lines().map(String::from).collect();
        assert_eq!(lines_of(&chars_of(text)), expected, "{:?}", text);
    }
}

#[test]
fn words_like_std() {
    for text in ["", "  a  b\tc\n", "one", "a\u{3000}b\u{a0}c", "   "] {
        let expected: Vec<String> = text.split_whitespace().map(String::from).collect();
        assert_eq!(split_whitespace(text), expected, "{:?}", text);
    }
}

#[test]
fn trim_like_std() {
    for text in ["", " 2 \n", "\t\u{2003}x y\u{85}", "   "] {
        assert_eq!(trim_string(text), text.trim(), "{:?}", text);
    }
}
