use cache_extractor::matcher::bytes_contains;
use cache_extractor::matcher::bytes_search;
use cache_extractor::matcher::contains;
use cache_extractor::matcher::matches_at;

#[test]
fn contains_finds_a_contiguous_run() {
    assert!(contains(b"hello world", b"lo wo"));
    assert!(contains(b"hello world", b"hello world"));
    assert!(contains(b"hello world", b"d"));
    assert!(contains(b"aab", b"ab"));
}

#[test]
fn contains_rejects_what_is_not_contiguous() {
    assert!(!contains(b"hello world", b"hw"));
    assert!(!contains(b"hello", b"hello world"));
    assert!(!contains(b"", b"a"));
    assert!(!contains(b"abc", b"acb"));
}

#[test]
fn contains_never_matches_the_empty_needle() {
    assert!(!contains(b"hello", b""));
    assert!(!contains(b"", b""));
}

#[test]
fn bytes_search_gives_the_first_index() {
    assert_eq!(bytes_search(b"abcabc", b"bc"), Some(1));
    assert_eq!(bytes_search(b"abcabc", b"abc"), Some(0));
    assert_eq!(bytes_search(b"xxabc", b"abc"), Some(2));
    assert_eq!(bytes_search(b"aaa", b"aa"), Some(0));
}

#[test]
fn bytes_search_gives_none_without_an_occurrence() {
    assert_eq!(bytes_search(b"abcabc", b"cb"), None);
    assert_eq!(bytes_search(b"ab", b"abc"), None);
    assert_eq!(bytes_search(b"abc", b""), None);
    assert_eq!(bytes_search(b"", b""), None);
}

#[test]
fn matches_at_compares_one_window() {
    assert!(matches_at(b"abcdef", b"cd", 2));
    assert!(!matches_at(b"abcdef", b"cd", 1));
    assert!(matches_at(b"abcdef", b"", 6));
}

#[test]
fn id3_needs_the_binary_marker_too() {
    assert!(bytes_contains(b"content-type: binary/octet-stream\r\n\r\nID3\x03", b"ID3"));
    assert!(bytes_contains(b"ID3\x03 .... binary/", b"ID3"));
}

#[test]
fn id3_alone_is_no_match() {
    assert!(!bytes_contains(b"....ID3\x03\x00\x00", b"ID3"));
    assert!(!bytes_contains(b"binary ID3", b"ID3"));
}

#[test]
fn binary_marker_alone_is_no_match() {
    assert!(!bytes_contains(b"content-type: binary/octet-stream", b"ID3"));
}

#[test]
fn other_signatures_need_no_marker() {
    assert!(bytes_contains(b"....OggS....", b"OggS"));
    assert!(bytes_contains(b"\x89PNG\r\n", b"PNG"));
    assert!(!bytes_contains(b"binary/ only", b"OggS"));
    assert!(!bytes_contains(b"OggS", b""));
    assert!(bytes_contains(b"xxID3", b"ID"));
}
