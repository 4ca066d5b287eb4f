use mfinvoice::query_string;
use mfinvoice::text::{decimal_text, join_texts};

#[test]
fn decimal_digits() {
    assert_eq!(decimal_text(0), "0");
    assert_eq!(decimal_text(7), "7");
    assert_eq!(decimal_text(100), "100");
    assert_eq!(decimal_text(u32::MAX), "4294967295");
}

#[test]
fn join_with_separator() {
    assert_eq!(join_texts(&vec![], ","), "");
    assert_eq!(join_texts(&vec!["a".to_string()], ","), "a");
    assert_eq!(join_texts(&vec!["a".to_string(), "".to_string(), "c".to_string()], "&"), "a&&c");
}

#[test]
fn query_string_keeps_order_and_encodes() {
    let params = vec![
        ("page".to_string(), "1".to_string()),
        ("per_page".to_string(), "100".to_string()),
    ];
    assert_eq!(query_string(&params), "page=1&per_page=100");
    let odd = vec![("k y".to_string(), "*-._~/".to_string())];
    assert_eq!(query_string(&odd), "k+y=*-._%7E%2F");
    assert_eq!(query_string(&vec![]), "");
}
