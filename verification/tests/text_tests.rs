use pilipili_strm::text::{
    contains, ends_with, eq_ignore_ascii_case, escape, join2, join3, same_text, starts_with,
    trim_end_matches, trim_start_matches,
};

#[test]
fn prefix_suffix_and_substring() {
    assert!(starts_with("total size is 12", "total size is"));
    assert!(!starts_with("sub total size is", "total size is"));
    assert!(starts_with("abc", ""));
    assert!(!starts_with("ab", "abc"));
    assert!(ends_with("dir/./", "./"));
    assert!(!ends_with("dir/.", "./"));
    assert!(ends_with("x", ""));
    assert!(contains("1,024 100% 1.00MB/s (xfr#1, to-chk=0/2)", "to-chk"));
    assert!(!contains("to-ch", "to-chk"));
    assert!(contains("anything", ""));
    assert!(contains("", ""));
    assert!(!contains("", "a"));
}

#[test]
fn case_insensitive_comparison_is_ascii_only() {
    assert!(eq_ignore_ascii_case("MP4", "mp4"));
    assert!(eq_ignore_ascii_case("Mkv", "mKV"));
    assert!(!eq_ignore_ascii_case("mp4", "mp3"));
    assert!(!eq_ignore_ascii_case("mp4", "mp4a"));
    assert!(!eq_ignore_ascii_case("É", "é"));
    assert!(eq_ignore_ascii_case("", ""));
    assert!(!eq_ignore_ascii_case("[", "{"));
    assert!(!eq_ignore_ascii_case("@", "`"));
}

#[test]
fn same_text_compares_characters() {
    assert!(same_text("copy", "copy"));
    assert!(!same_text("copy", "Copy"));
    assert!(!same_text("copy", "copy "));
    assert!(same_text("", ""));
}

#[test]
fn trimming_removes_whole_runs_only_at_the_ends() {
    assert_eq!(trim_end_matches("/srv/media///", '/'), "/srv/media");
    assert_eq!(trim_end_matches("/srv/media", '/'), "/srv/media");
    assert_eq!(trim_end_matches("///", '/'), "");
    assert_eq!(trim_end_matches("", '/'), "");
    assert_eq!(trim_end_matches("a/b/", '/'), "a/b");
    assert_eq!(trim_start_matches("..strm", '.'), "strm");
    assert_eq!(trim_start_matches("strm.", '.'), "strm.");
    assert_eq!(trim_start_matches("//a//", '/'), "a//");
    assert_eq!(trim_start_matches("", '.'), "");
}

#[test]
fn escape_puts_backslash_before_special_characters() {
    let special = vec!['.', '!'];
    assert_eq!(escape("a.b!c", &special), "a\\.b\\!c");
    assert_eq!(escape("plain", &special), "plain");
    assert_eq!(escape("", &special), "");
    assert_eq!(escape("..", &special), "\\.\\.");
    assert_eq!(escape("a.b", &Vec::new()), "a.b");
}

#[test]
fn joins_concatenate_in_order() {
    assert_eq!(join2("ab", "cd"), "abcd");
    assert_eq!(join3("a", ":", "b"), "a:b");
    assert_eq!(join2("", ""), "");
}
