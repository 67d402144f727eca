use polygon_io::query::QueryParams;
use polygon_io::text::{bool_string, i32_text, i64_text, join_strings, trim_start_slashes, u64_text, usize_text};

#[test]
fn decimal_texts() {
    assert_eq!(u64_text(0), "0");
    assert_eq!(u64_text(7), "7");
    assert_eq!(u64_text(1234567890), "1234567890");
    assert_eq!(u64_text(u64::MAX), u64::MAX.to_string());
    assert_eq!(i64_text(-42), "-42");
    assert_eq!(i64_text(i64::MIN), i64::MIN.to_string());
    assert_eq!(i64_text(i64::MAX), i64::MAX.to_string());
    assert_eq!(i32_text(-2147483648), "-2147483648");
    assert_eq!(usize_text(1000), "1000");
    assert_eq!(bool_string(true), "true");
    assert_eq!(bool_string(false), "false");
}

#[test]
fn trimming_and_joining() {
    assert_eq!(trim_start_slashes("//a/b"), "a/b");
    assert_eq!(trim_start_slashes("a/b"), "a/b");
    assert_eq!(trim_start_slashes("///"), "");
    assert_eq!(join_strings(&vec!["AAPL".to_string(), "MSFT".to_string()], ","), "AAPL,MSFT");
    assert_eq!(join_strings(&vec![], ","), "");
    assert_eq!(join_strings(&vec!["X".to_string()], ","), "X");
}

#[test]
fn query_insert_and_get() {
    let mut q = QueryParams::new();
    assert!(q.is_empty());
    assert_eq!(q.insert("a".to_string(), "1".to_string()), None);
    assert_eq!(q.insert("b".to_string(), "2".to_string()), None);
    assert_eq!(q.len(), 2);
    // Setting a name again replaces its value in place.
    assert_eq!(q.insert("a".to_string(), "3".to_string()), Some("1".to_string()));
    assert_eq!(q.len(), 2);
    assert_eq!(q.get("a"), Some(&"3".to_string()));
    assert_eq!(q.get("b"), Some(&"2".to_string()));
    assert_eq!(q.get("c"), None);
    let pairs = q.into_pairs();
    assert_eq!(
        pairs,
        vec![("a".to_string(), "3".to_string()), ("b".to_string(), "2".to_string())]
    );
}
