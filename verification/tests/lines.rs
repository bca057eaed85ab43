use resmoke_colors::lines::{group_slice, split_line, PrefixExtractor, SuccessDetector};

fn extractor() -> PrefixExtractor {
    PrefixExtractor::new().ok().unwrap()
}

fn detector() -> SuccessDetector {
    SuccessDetector::new().ok().unwrap()
}

#[test]
fn both_line_patterns_compile() {
    assert!(PrefixExtractor::new().is_ok());
    assert!(SuccessDetector::new().is_ok());
}

#[test]
fn all_tests_passed_is_a_success() {
    assert!(detector().is_success("All 42 test(s) passed"));
    assert!(detector().is_success("[resmoke] 12:00 All 1 test(s) passed in 3.2 seconds"));
}

#[test]
fn exit_code_one_is_no_success() {
    assert!(!detector().is_success("Exiting with code: 1"));
}

#[test]
fn exit_code_zero_is_a_success() {
    assert!(detector().is_success("Exiting with code: 0"));
    assert!(detector().is_success("[resmoke] Exiting with code: 0"));
}

#[test]
fn other_lines_are_no_success() {
    assert!(!detector().is_success(""));
    assert!(!detector().is_success("hello world"));
    assert!(!detector().is_success("All test(s) passed"));
    assert!(!detector().is_success("All 42 tests passed"));
    assert!(!detector().is_success("all 42 test(s) passed"));
    assert!(!detector().is_success("Exiting with code: "));
}

#[test]
fn a_run_identifier_and_a_process_tag_are_the_prefix() {
    assert_eq!(
        extractor().extract("[js_test:foo] d20020| hello"),
        ("[js_test:foo] d20020| ", "hello")
    );
    assert_eq!(extractor().extract("[x] s12| body"), ("[x] s12| ", "body"));
    assert_eq!(extractor().extract("[x] c1| "), ("[x] c1| ", ""));
    assert_eq!(extractor().extract("[x] h7| a| b"), ("[x] h7| ", "a| b"));
}

#[test]
fn a_run_identifier_alone_is_the_prefix() {
    assert_eq!(extractor().extract("[resmoke] 12:00 start"), ("[resmoke] ", "12:00 start"));
    assert_eq!(extractor().extract("[x] z12| body"), ("[x] ", "z12| body"));
    assert_eq!(extractor().extract("[x] d| body"), ("[x] ", "d| body"));
    assert_eq!(extractor().extract("[a] [b] c"), ("[a] ", "[b] c"));
    assert_eq!(extractor().extract("[a] "), ("[a] ", ""));
}

#[test]
fn a_line_without_tags_is_all_content() {
    assert_eq!(extractor().extract("hello world"), ("", "hello world"));
    assert_eq!(extractor().extract(""), ("", ""));
    assert_eq!(extractor().extract("[] x"), ("", "[] x"));
    assert_eq!(extractor().extract("[a b] x"), ("", "[a b] x"));
    assert_eq!(extractor().extract("[a]x"), ("", "[a]x"));
}

#[test]
fn what_stands_before_the_run_identifier_is_dropped() {
    assert_eq!(extractor().extract("noise [a] rest"), ("[a] ", "rest"));
}

#[test]
fn the_content_ends_with_the_line() {
    assert_eq!(extractor().extract("[a] b\nc"), ("[a] ", "b"));
}

#[test]
fn wide_characters_are_kept_whole() {
    assert_eq!(extractor().extract("[é] d1| ü!"), ("[é] d1| ", "ü!"));
}

#[test]
fn group_slice_cuts_out_the_text_of_a_group() {
    let groups = vec![Some((0, 6)), Some((0, 2)), None, Some((4, 3)), Some((2, 9))];
    assert_eq!(group_slice("abcdef", &groups, 0), Some("abcdef"));
    assert_eq!(group_slice("abcdef", &groups, 1), Some("ab"));
    assert_eq!(group_slice("abcdef", &groups, 2), None);
    assert_eq!(group_slice("abcdef", &groups, 3), None);
    assert_eq!(group_slice("abcdef", &groups, 4), None);
    assert_eq!(group_slice("abcdef", &groups, 5), None);
    assert_eq!(group_slice("aé b", &vec![Some((1, 2))], 0), None);
    assert_eq!(group_slice("aé b", &vec![Some((1, 3))], 0), Some("é"));
}

#[test]
fn split_line_takes_the_first_and_the_second_group() {
    let groups = Some(vec![Some((0, 6)), Some((0, 2)), Some((2, 6))]);
    assert_eq!(split_line("abcdef", &groups), ("ab", "cdef"));
    let apart = Some(vec![Some((1, 6)), Some((1, 2)), Some((4, 6))]);
    assert_eq!(split_line("abcdef", &apart), ("b", "ef"));
}

#[test]
fn split_line_falls_back_to_the_whole_line() {
    assert_eq!(split_line("abcdef", &None), ("", "abcdef"));
    assert_eq!(split_line("abcdef", &Some(vec![])), ("", "abcdef"));
    assert_eq!(split_line("abcdef", &Some(vec![Some((0, 6)), Some((0, 2))])), ("", "abcdef"));
    assert_eq!(
        split_line("abcdef", &Some(vec![Some((0, 6)), None, Some((2, 6))])),
        ("", "abcdef")
    );
    assert_eq!(
        split_line("abcdef", &Some(vec![Some((0, 6)), Some((0, 2)), Some((2, 7))])),
        ("", "abcdef")
    );
}

#[test]
fn every_text_gets_a_split_and_a_verdict() {
    for line in ["", " ", "\n", "\u{0}", "[", "]", "[] ", "[[a]] ", "ｊ０ ü é 漢字", "[é] ", "||||"] {
        let (prefix, content) = extractor().extract(line);
        assert!(line.contains(prefix), "line {:?}", line);
        assert!(line.ends_with(content) || line.contains('\n'), "line {:?}", line);
        assert!(!detector().is_success(line), "line {:?}", line);
    }
}
