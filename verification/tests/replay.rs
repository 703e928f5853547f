use xid::replay::ReplayGuard;

#[test]
fn identifier_is_fresh_exactly_once() {
    let mut guard = ReplayGuard::new();
    assert!(guard.check_and_consume("a1"));
    assert!(!guard.check_and_consume("a1"));
    assert!(!guard.check_and_consume("a1"));
}

#[test]
fn distinct_identifiers_are_each_fresh_once() {
    let mut guard = ReplayGuard::new();
    for id in ["b", "a", "c", "ab", "", "B"] {
        assert!(guard.check_and_consume(id), "{:?} first", id);
    }
    for id in ["b", "a", "c", "ab", "", "B"] {
        assert!(!guard.check_and_consume(id), "{:?} again", id);
    }
    assert_eq!(guard.len(), 6);
}

#[test]
fn later_identifiers_do_not_free_an_earlier_one() {
    let mut guard = ReplayGuard::new();
    assert!(guard.check_and_consume("first"));
    for i in 0..50 {
        assert!(guard.check_and_consume(&format!("later-{}", i)));
    }
    assert!(!guard.check_and_consume("first"));
    assert!(guard.contains("first"));
    assert!(guard.contains("later-49"));
    assert!(!guard.contains("later-50"));
}

#[test]
fn refused_identifier_leaves_the_guard_as_it_was() {
    let mut guard = ReplayGuard::new();
    assert!(guard.check_and_consume("x"));
    assert!(!guard.check_and_consume("x"));
    assert_eq!(guard.len(), 1);
}

#[test]
fn clearing_frees_every_identifier() {
    let mut guard = ReplayGuard::new();
    assert!(guard.check_and_consume("x"));
    assert!(guard.check_and_consume("y"));
    guard.clear();
    assert_eq!(guard.len(), 0);
    assert!(!guard.contains("x"));
    assert!(guard.check_and_consume("x"));
}

#[test]
fn taken_identifiers_come_in_byte_order() {
    let mut guard = ReplayGuard::new();
    for id in ["b", "a", "é", "ab", "", "B", "z"] {
        assert!(guard.check_and_consume(id));
    }
    let ids = guard.take();
    assert_eq!(ids, vec!["", "B", "a", "ab", "b", "z", "é"]);
    assert_eq!(guard.len(), 0);
    assert!(guard.is_wf());
}

#[test]
fn guard_from_a_list_has_consumed_the_list() {
    let list = vec!["q".to_string(), "a".to_string(), "q".to_string(), "m".to_string()];
    let mut guard = ReplayGuard::from_vec(list);
    assert!(guard.is_wf());
    assert_eq!(guard.len(), 3);
    assert!(!guard.check_and_consume("q"));
    assert!(!guard.check_and_consume("a"));
    assert!(!guard.check_and_consume("m"));
    assert!(guard.check_and_consume("b"));
}
