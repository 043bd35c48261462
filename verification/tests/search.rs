use pass::search::{contains, contains_once, find_pattern, find_pattern_iter};

#[test]
fn test_contains_once() {
    assert!(!contains_once("".as_bytes(), "".as_bytes()));
    assert!(!contains_once("".as_bytes(), "bc".as_bytes()));
    assert!(!contains_once("abcd".as_bytes(), "".as_bytes()));
    assert!(contains_once("abcd".as_bytes(), "cd".as_bytes()));
    assert!(!contains_once("abcdabcd".as_bytes(), "cd".as_bytes()));
    assert!(!contains_once("abc".as_bytes(), "cd".as_bytes()));
    assert!(contains_once("aaa".as_bytes(), "aa".as_bytes()));
    assert!(contains_once("aaa".as_bytes(), "aaa".as_bytes()));
}

#[test]
fn test_find_pattern() {
    assert_eq!(find_pattern("".as_bytes(), "".as_bytes()), Some(0));
    assert_eq!(find_pattern("abc".as_bytes(), "".as_bytes()), Some(0));
    assert_eq!(find_pattern("abc".as_bytes(), "abc".as_bytes()), Some(0));
    assert_eq!(find_pattern("abc".as_bytes(), "d".as_bytes()), None);
    assert_eq!(find_pattern("abbbc".as_bytes(), "bb".as_bytes()), Some(1));
    assert_eq!(find_pattern("abbbcc".as_bytes(), "cc".as_bytes()), Some(4));
    assert_eq!(find_pattern("".as_bytes(), "aaaa".as_bytes()), None);
    assert_eq!(find_pattern("cc".as_bytes(), "aaaa".as_bytes()), None);
}

#[test]
fn test_find_pattern_iter() {
    {
        let mut iter = find_pattern_iter("1".as_bytes(), "1".as_bytes());
        assert_eq!(iter.next().unwrap(), 0);
        assert_eq!(iter.next(), None);
        assert_eq!(iter.next(), None);
    }
    {
        let mut iter = find_pattern_iter("abcd 111 22 11 2".as_bytes(), "11".as_bytes());
        assert_eq!(iter.next().unwrap(), 5);
        assert_eq!(iter.next().unwrap(), 12);
        assert_eq!(iter.next(), None);
    }
    {
        let mut iter = find_pattern_iter("abcd 11 22 11 2".as_bytes(), "5".as_bytes());
        assert_eq!(iter.next(), None);
    }
}

#[test]
fn contains_finds_a_pattern_anywhere() {
    assert!(contains("abcd".as_bytes(), "bc".as_bytes()));
    assert!(contains("abcd".as_bytes(), "abcd".as_bytes()));
    assert!(contains("abcd".as_bytes(), "".as_bytes()));
    assert!(contains("".as_bytes(), "".as_bytes()));
    assert!(contains("abab".as_bytes(), "ab".as_bytes()));
    assert!(!contains("abcd".as_bytes(), "ca".as_bytes()));
    assert!(!contains("abc".as_bytes(), "abcd".as_bytes()));
}

#[test]
fn find_pattern_reports_the_leftmost_occurrence() {
    assert_eq!(find_pattern("xxabxxab".as_bytes(), "ab".as_bytes()), Some(2));
    assert_eq!(find_pattern("aab".as_bytes(), "ab".as_bytes()), Some(1));
    assert_eq!(find_pattern("ab".as_bytes(), "b".as_bytes()), Some(1));
}

#[test]
fn iterator_skips_overlapping_occurrences() {
    let mut iter = find_pattern_iter("aaaaa".as_bytes(), "aa".as_bytes());
    assert_eq!(iter.next(), Some(0));
    assert_eq!(iter.next(), Some(2));
    assert_eq!(iter.next(), None);
}

#[test]
fn iterator_on_empty_pattern_stays_at_the_start() {
    let mut iter = find_pattern_iter("abc".as_bytes(), "".as_bytes());
    assert_eq!(iter.next(), Some(0));
    assert_eq!(iter.next(), Some(0));
    assert_eq!(iter.next(), Some(0));
}

#[test]
fn contains_once_at_the_edges() {
    assert!(contains_once("ab".as_bytes(), "ab".as_bytes()));
    assert!(contains_once("xab".as_bytes(), "ab".as_bytes()));
    assert!(contains_once("abx".as_bytes(), "ab".as_bytes()));
    assert!(!contains_once("abab".as_bytes(), "ab".as_bytes()));
    assert!(!contains_once("aaaa".as_bytes(), "aa".as_bytes()));
}
