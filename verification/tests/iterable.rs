use eink::iterable::{IterError, Iterable};

#[test]
fn cursor_walks_items_in_order() {
    let items = Iterable(vec![10, 20, 30]);
    let mut c = items.first();
    assert!(c.has_current());
    assert_eq!(c.current().ok(), Some(&10));
    assert!(c.move_next());
    assert_eq!(c.current().ok(), Some(&20));
    assert!(c.move_next());
    assert_eq!(c.current().ok(), Some(&30));
    assert!(!c.move_next());
    assert!(!c.has_current());
    assert!(matches!(c.current(), Err(IterError::OutOfBounds)));
}

#[test]
fn cursor_on_empty_collection() {
    let items: Iterable<u8> = Iterable(Vec::new());
    let c = items.first();
    assert!(!c.has_current());
    assert!(matches!(c.current(), Err(IterError::OutOfBounds)));
}
