use xid::bytes::{append_bytes, bytes_eq, lex_order, Order};
use xid::decimal::{decimal_string, push_decimal};
use xid::sorted::{Keyed, SortedSet};
use xid::text::{duplicate_bytes, duplicate_texts};

#[test]
fn numbers_are_written_in_decimal() {
    assert_eq!(decimal_string(0), "0");
    assert_eq!(decimal_string(7), "7");
    assert_eq!(decimal_string(10), "10");
    assert_eq!(decimal_string(1_654_041_600_123_456_789), "1654041600123456789");
    assert_eq!(decimal_string(u64::MAX), "18446744073709551615");
    for n in [1u64, 9, 99, 100, 101, 12345, 1 << 40] {
        assert_eq!(decimal_string(n), n.to_string());
    }
}

#[test]
fn decimal_digits_are_appended_as_ascii() {
    let mut buf = vec![b'x'];
    push_decimal(&mut buf, 0);
    push_decimal(&mut buf, 4096);
    assert_eq!(buf, b"x04096".to_vec());
}

#[test]
fn bytes_are_ordered_lexicographically() {
    assert_eq!(lex_order(b"", b""), Order::Equal);
    assert_eq!(lex_order(b"", b"a"), Order::Less);
    assert_eq!(lex_order(b"a", b""), Order::Greater);
    assert_eq!(lex_order(b"abc", b"abd"), Order::Less);
    assert_eq!(lex_order(b"abd", b"abc"), Order::Greater);
    assert_eq!(lex_order(b"ab", b"abc"), Order::Less);
    assert_eq!(lex_order(b"abc", b"ab"), Order::Greater);
    assert_eq!(lex_order(b"b", b"abc"), Order::Greater);
    assert_eq!(lex_order(&[0xff], &[0x00, 0xff]), Order::Greater);
    assert_eq!(lex_order(b"same", b"same"), Order::Equal);
    for (a, b) in [("", "a"), ("Z", "a"), ("a", "é"), ("ab", "b"), ("é", "z\u{10000}")] {
        let expected = match a.cmp(b) {
            std::cmp::Ordering::Less => Order::Less,
            std::cmp::Ordering::Equal => Order::Equal,
            std::cmp::Ordering::Greater => Order::Greater,
        };
        assert_eq!(lex_order(a.as_bytes(), b.as_bytes()), expected);
    }
}

#[test]
fn bytes_are_compared_and_appended() {
    assert!(bytes_eq(b"", b""));
    assert!(bytes_eq(b"abc", b"abc"));
    assert!(!bytes_eq(b"abc", b"abd"));
    assert!(!bytes_eq(b"abc", b"ab"));
    let mut buf = b"ab".to_vec();
    append_bytes(&mut buf, b"cd");
    append_bytes(&mut buf, b"");
    assert_eq!(buf, b"abcd".to_vec());
    assert_eq!(duplicate_bytes(&vec![1, 2, 3]), vec![1, 2, 3]);
    let texts = vec!["a".to_string(), String::new(), "é".to_string()];
    assert_eq!(duplicate_texts(&texts), texts);
}

#[test]
fn text_is_keyed_by_its_utf8_bytes() {
    assert_eq!("é".to_string().key_bytes(), vec![0xc3, 0xa9]);
    assert_eq!(String::new().key_bytes(), Vec::<u8>::new());
}

#[test]
fn sorted_set_keeps_order_and_one_value_per_key() {
    let mut set: SortedSet<String> = SortedSet::new();
    assert!(set.is_wf());
    for text in ["m", "a", "z", "b"] {
        assert!(set.insert(text.to_string()));
    }
    assert!(!set.insert("a".to_string()));
    assert_eq!(set.len(), 4);
    assert_eq!(set.get(0), "a");
    assert_eq!(set.get(3), "z");
    assert_eq!(set.search(b"m"), (true, 2));
    assert_eq!(set.search(b"c"), (false, 2));
    assert_eq!(set.search(b""), (false, 0));
    assert_eq!(set.search(b"zz"), (false, 4));
    assert!(set.contains(b"b"));
    assert!(!set.contains(b"bb"));
    assert_eq!(set.find(b"z").map(|s| s.as_str()), Some("z"));
    assert_eq!(set.find(b"y"), None);
    assert_eq!(set.replace("b".to_string()), Some("b".to_string()));
    assert_eq!(set.replace("c".to_string()), None);
    assert_eq!(set.remove(b"m"), Some("m".to_string()));
    assert_eq!(set.remove(b"m"), None);
    assert!(set.is_wf());
    let taken = set.take();
    assert_eq!(set.len(), 0);
    assert_eq!(taken.into_vec(), vec!["a", "b", "c", "z"]);
}

#[test]
fn sorted_set_takes_lists_first_wins_or_last_wins() {
    let mut first: SortedSet<String> = SortedSet::new();
    first.insert_all(vec!["b".to_string(), "a".to_string(), "b".to_string()]);
    assert_eq!(first.into_vec(), vec!["a", "b"]);
    let mut last: SortedSet<String> = SortedSet::new();
    last.replace_all(vec!["b".to_string(), "a".to_string(), "b".to_string()]);
    assert_eq!(last.len(), 2);
    last.clear();
    assert_eq!(last.len(), 0);
    assert!(last.is_wf());
}
