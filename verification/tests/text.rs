use auto_git::text::{
    contains_chars, latin1_decode, rest_after_byte3, split_lines, splits_at_byte3_exec,
    starts_with_chars, string_from_chars, trim_end_chars,
};

fn cs(s: &str) -> Vec<char> {
    s.chars().collect()
}

#[test]
fn latin1_reads_each_byte_as_one_char() {
    assert_eq!(latin1_decode(&[b'a', 0xe9, b'\n']), vec!['a', '\u{e9}', '\n']);
    assert_eq!(string_from_chars(&latin1_decode(b"abc")), "abc");
}

#[test]
fn search_in_text() {
    assert!(contains_chars(&cs("M  src/lib.rs"), &cs("M ")));
    assert!(!contains_chars(&cs("?? new.rs"), &cs("M ")));
    assert!(contains_chars(&cs("abc"), &cs("")));
    assert!(!contains_chars(&cs("ab"), &cs("abc")));
    assert!(starts_with_chars(&cs("\\\\srv"), &cs("\\\\")));
    assert!(!starts_with_chars(&cs("\\srv"), &cs("\\\\")));
}

#[test]
fn trimming_drops_trailing_white_space_only() {
    assert_eq!(trim_end_chars(&cs("  C:\\Users\\me\\ \r\n")), cs("  C:\\Users\\me\\"));
    assert_eq!(trim_end_chars(&cs("\u{3000}\t")), cs(""));
    assert_eq!(trim_end_chars(&cs("x")), cs("x"));
}

#[test]
fn lines_skip_an_empty_last_piece() {
    let ls: Vec<String> = split_lines(&cs("a\nb\n")).iter().map(|l| l.iter().collect()).collect();
    assert_eq!(ls, vec!["a", "b"]);
    let ls: Vec<String> = split_lines(&cs("a\n\nb")).iter().map(|l| l.iter().collect()).collect();
    assert_eq!(ls, vec!["a", "", "b"]);
    assert!(split_lines(&cs("")).is_empty());
    assert_eq!(split_lines(&cs("\n")).len(), 1);
}

#[test]
fn cutting_after_the_third_byte() {
    assert_eq!(rest_after_byte3(&cs("?? file.txt")), cs("file.txt"));
    assert_eq!(rest_after_byte3(&cs("\u{e9} x")), cs("x"));
    assert!(splits_at_byte3_exec(&cs("abc")));
    assert!(!splits_at_byte3_exec(&cs("\u{e9}\u{e9}x")));
    assert!(!splits_at_byte3_exec(&cs("ab")));
}
