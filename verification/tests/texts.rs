use folsec_auditor::lines::{fill1, fill2, fill3, fill4, fill5};
use folsec_auditor::order::{is_before, sort, Ranked};
use folsec_auditor::scanner::risk::RiskFinding;
use folsec_auditor::text::{
    chars_of, contains, decimal_text, hex_text, pad_text, replace, same_text,
};

#[test]
fn texts_are_searched_and_replaced() {
    assert!(contains("abcabd", "abd"));
    assert!(!contains("ab", "abc"));
    assert!(contains("ab", ""));
    assert!(same_text("é", "é"));
    assert!(!same_text("a", "ab"));
    assert_eq!(replace("aaa", "aa", "b"), "ba");
    assert_eq!(replace("x__A__y__A__", "__A__", "__A__!"), "x__A__!y__A__!");
    assert_eq!(replace("none", "z", "y"), "none");
    assert_eq!(chars_of("aé😀"), vec!['a', 'é', '😀']);
}

#[test]
fn numbers_are_written() {
    assert_eq!(decimal_text(0), "0");
    assert_eq!(decimal_text(1009), "1009");
    assert_eq!(decimal_text(u128::MAX), "340282366920938463463374607431768211455");
    assert_eq!(hex_text(0xBEEF, 8, true), "0000BEEF");
    assert_eq!(hex_text(0xBEEF, 8, false), "0000beef");
    assert_eq!(pad_text("7".to_string(), 3, '0'), "007");
    assert_eq!(pad_text("1234".to_string(), 3, ' '), "1234");
}

#[test]
fn fields_stand_between_texts() {
    assert_eq!(fill1(&["<", ">"], "a"), "<a>");
    assert_eq!(fill2(&["<", "|", ">"], "a", "b"), "<a|b>");
    assert_eq!(fill3(&["<", "|", "|", ">"], "a", "b", "c"), "<a|b|c>");
    assert_eq!(fill4(&["<", "|", "|", "|", ">"], "a", "b", "c", "d"), "<a|b|c|d>");
    assert_eq!(fill5(&["", "", "", "", "", ""], "a", "b", "c", "d", "e"), "abcde");
}

#[test]
fn texts_are_ordered_by_code_point() {
    let words = ["", "A", "Z", "a", "ab", "b", "é", "\u{FFFD}", "😀"];
    for (i, a) in words.iter().enumerate() {
        for (j, b) in words.iter().enumerate() {
            assert_eq!(is_before(a, b), i < j);
            assert_eq!(is_before(a, b), a < b);
        }
    }
}

#[test]
fn sorting_is_stable() {
    let items: Vec<RiskFinding> = (0..50)
        .map(|k: usize| {
            RiskFinding::orphaned_sid(format!("p{}", (k * 13) % 5), format!("{:02}", k))
        })
        .collect();
    let sorted = sort(items);
    for w in sorted.windows(2) {
        assert!(!w[1].comes_first(&w[0]));
        if w[0].path == w[1].path {
            assert!(w[0].remediation_hint < w[1].remediation_hint);
        }
    }
    assert_eq!(sorted.len(), 50);
}
