use pica::string_map::{Duplicate, StringMap};
use pica::text::{str_less, decimal_string, decimal_string_pad2, signed_decimal_string};

#[test]
fn keys_are_kept_in_order_and_once() {
    let mut m = StringMap::new();
    m.insert("b".to_string(), "1".to_string());
    m.insert("a".to_string(), "2".to_string());
    m.insert("c".to_string(), "3".to_string());
    m.insert("b".to_string(), "4".to_string());
    assert_eq!(m.len(), 3);
    let keys: Vec<&str> = (0..m.len()).map(|i| m.entry(i).0.as_str()).collect();
    assert_eq!(keys, vec!["a", "b", "c"]);
    assert_eq!(m.get("b").unwrap(), "4");
    assert!(m.get("d").is_none());
}

#[test]
fn remove_gives_back_the_value() {
    let mut m = StringMap::new();
    m.insert("x".to_string(), "1".to_string());
    m.insert("y".to_string(), "2".to_string());
    let copy = m.duplicate();
    assert_eq!(m.remove("x"), Some("1".to_string()));
    assert_eq!(m.remove("x"), None);
    assert!(m.get("x").is_none());
    assert_eq!(m.get("y").unwrap(), "2");
    assert_eq!(copy.len(), 2);
}

#[test]
fn order_agrees_with_string_order() {
    let words = ["", "a", "ab", "b", "B", "é", "zz", "$in", "limit"];
    for a in words {
        for b in words {
            assert_eq!(str_less(a, b), a < b, "{a:?} < {b:?}");
        }
    }
}

#[test]
fn numbers_are_written_like_display() {
    for n in [0u64, 7, 10, 99, 2024, u64::MAX] {
        assert_eq!(decimal_string(n), n.to_string());
        assert_eq!(decimal_string_pad2(n), format!("{n:02}"));
    }
    for n in [0i32, -1, -2024, i32::MIN, i32::MAX] {
        assert_eq!(signed_decimal_string(n), n.to_string());
    }
}
