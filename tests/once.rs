use worker_pool::{Once, Registry};

#[test]
fn once_yields_its_payload_once() {
    let mut cell = Once::new(41u32);
    assert!(!cell.consumed());
    assert_eq!(cell.try_take(), Some(41));
    assert!(cell.consumed());
    assert_eq!(cell.try_take(), None);
}

#[test]
fn once_take_then_empty() {
    let mut cell = Once::new(String::from("job"));
    assert_eq!(cell.take(), "job");
    assert!(cell.consumed());
    assert_eq!(cell.try_take(), None);
}

#[test]
fn registry_hands_out_fresh_handles() {
    let mut table: Registry<&'static str> = Registry::new();
    let a = table.insert("a").ok().unwrap();
    let b = table.insert("b").ok().unwrap();
    assert_eq!(a, 0);
    assert_eq!(b, 1);
    assert!(table.contains(a));
    assert!(table.contains(b));
    assert!(!table.contains(2));
}

#[test]
fn registry_entry_is_claimed_once() {
    let mut table: Registry<u8> = Registry::new();
    let h = table.insert(9).ok().unwrap();
    assert_eq!(table.take(h), Some(9));
    assert!(!table.contains(h));
    assert_eq!(table.take(h), None);
    let k = table.insert(10).ok().unwrap();
    assert_ne!(k, h);
    assert_eq!(table.take(k), Some(10));
}

#[test]
fn registry_unknown_handle() {
    let mut table: Registry<u8> = Registry::new();
    assert_eq!(table.take(5), None);
}
