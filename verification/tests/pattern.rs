use pass::pattern::{bin, is_regex, re, replace_span_once, splice_bytes, try_re, Pattern};

#[test]
fn test_pattern_replace_once() {
    {
        let p = Pattern::Bin("123".as_bytes().to_vec());
        assert_eq!(
            p.replace_once("111 123 333".as_bytes(), "aaa".as_bytes())
                .unwrap(),
            "111 aaa 333".as_bytes()
        );
    }
    {
        let p = Pattern::Bin("1".as_bytes().to_vec());
        assert!(p
            .replace_once("111 123 333".as_bytes(), "aaa".as_bytes())
            .is_none());
    }
    {
        let p = Pattern::Bin("".as_bytes().to_vec());
        assert!(p
            .replace_once("111 123 333".as_bytes(), "aaa".as_bytes())
            .is_none());
    }
    {
        let p = re("1.3");
        assert_eq!(
            p.replace_once("111 123 333".as_bytes(), "aaa".as_bytes())
                .unwrap(),
            "111 aaa 333".as_bytes()
        );
    }
    {
        let p = re(".1");
        assert!(p
            .replace_once("111 123 333".as_bytes(), "aaa".as_bytes())
            .is_none());
    }
    {
        let p = re("");
        assert!(p
            .replace_once("111 123 333".as_bytes(), "aaa".as_bytes())
            .is_none());
    }
}

#[test]
fn replace_once_refuses_a_pattern_that_occurs_twice() {
    let data = "key=1\nkey=2\n".as_bytes().to_vec();
    let p = bin("key=".as_bytes());
    assert!(p.replace_once(&data, "k=".as_bytes()).is_none());
    assert_eq!(data, "key=1\nkey=2\n".as_bytes());
}

#[test]
fn replace_once_refuses_an_absent_pattern() {
    let p = bin("zzz".as_bytes());
    assert!(p.replace_once("abc".as_bytes(), "x".as_bytes()).is_none());
    let r = re("z+");
    assert!(r.replace_once("abc".as_bytes(), "x".as_bytes()).is_none());
}

#[test]
fn replace_once_at_the_edges() {
    let p = bin("ab".as_bytes());
    assert_eq!(p.replace_once("abxx".as_bytes(), "".as_bytes()).unwrap(), "xx".as_bytes());
    assert_eq!(p.replace_once("xxab".as_bytes(), "123".as_bytes()).unwrap(), "xx123".as_bytes());
    assert_eq!(p.replace_once("ab".as_bytes(), "ab".as_bytes()).unwrap(), "ab".as_bytes());
    assert_eq!(
        bin("aa".as_bytes()).replace_once("aaa".as_bytes(), "b".as_bytes()).unwrap(),
        "ba".as_bytes()
    );
}

#[test]
fn bin_pattern_counts_occurrences() {
    let p = bin("cd".as_bytes());
    assert_eq!(p.contains_once("abcd".as_bytes()), Some(true));
    assert_eq!(p.contains_once("abcdabcd".as_bytes()), Some(false));
    assert_eq!(p.contains_once("ab".as_bytes()), Some(false));
    assert_eq!(p.contains("abcdabcd".as_bytes()), Some(true));
    assert_eq!(p.contains("ab".as_bytes()), Some(false));
    assert_eq!(bin("aa".as_bytes()).contains_once("aaa".as_bytes()), Some(true));
}

#[test]
fn regex_pattern_counts_matches() {
    let p = re("1.2");
    assert_eq!(p.contains_once("111222333".as_bytes()), Some(true));
    assert_eq!(re("1.").contains_once("111222333".as_bytes()), Some(false));
    assert_eq!(re("4").contains_once("111222333".as_bytes()), Some(false));
    assert_eq!(re("1{3}").contains("111222333".as_bytes()), Some(true));
    assert_eq!(re("1{4}").contains("111222333".as_bytes()), Some(false));
}

#[test]
fn regex_pattern_has_no_answer_for_invalid_utf8() {
    let data: Vec<u8> = vec![0x61, 0xff, 0x62];
    let p = re("a");
    assert_eq!(p.contains_once(&data), None);
    assert_eq!(p.contains(&data), None);
    assert!(p.replace_once(&data, "x".as_bytes()).is_none());
    assert_eq!(bin("a".as_bytes()).contains_once(&data), Some(true));
}

#[test]
fn regex_replacement_uses_byte_offsets() {
    let p = re("b+");
    let data = "\u{e9}abbbc".as_bytes();
    assert_eq!(p.replace_once(data, "-".as_bytes()).unwrap(), "\u{e9}a-c".as_bytes());
}

#[test]
fn regex_sources_are_checked() {
    assert!(is_regex("a+"));
    assert!(!is_regex("a("));
    assert!(try_re("a+").is_some());
    assert!(try_re("a(").is_none());
    assert!(matches!(try_re("x"), Some(Pattern::Regex(_))));
    match re("a.c") {
        Pattern::Regex(compiled) => assert_eq!(compiled.source(), "a.c"),
        Pattern::Bin(_) => panic!("a regular expression was asked for"),
    }
}

#[test]
fn patterns_can_be_copied() {
    let p = re("1.2");
    let q = p.clone();
    assert_eq!(q.contains_once("111222333".as_bytes()), Some(true));
    assert_eq!(p.contains_once("111222333".as_bytes()), Some(true));
    let b = bin("cd".as_bytes()).clone();
    assert_eq!(b.contains_once("abcd".as_bytes()), Some(true));
}

#[test]
fn splice_replaces_a_range() {
    assert_eq!(splice_bytes("abcdef".as_bytes(), 2, 4, "XYZ".as_bytes()), "abXYZef".as_bytes());
    assert_eq!(splice_bytes("abcdef".as_bytes(), 0, 0, "X".as_bytes()), "Xabcdef".as_bytes());
    assert_eq!(splice_bytes("abcdef".as_bytes(), 6, 6, "X".as_bytes()), "abcdefX".as_bytes());
    assert_eq!(splice_bytes("abcdef".as_bytes(), 0, 6, "".as_bytes()), "".as_bytes());
}

#[test]
fn sole_span_is_replaced_and_others_refused() {
    let data = "hello world".as_bytes();
    assert_eq!(
        replace_span_once(data, &vec![(6, 11)], "there".as_bytes()).unwrap(),
        "hello there".as_bytes()
    );
    assert!(replace_span_once(data, &vec![], "x".as_bytes()).is_none());
    assert!(replace_span_once(data, &vec![(0, 1), (2, 3)], "x".as_bytes()).is_none());
}
