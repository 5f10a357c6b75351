use krown::registry::{CheckoutError, RegistryError, SessionRegistry};
use krown::models::SessionStatus;

fn registry_with(ids: &[u128]) -> SessionRegistry<u32> {
    let mut reg = SessionRegistry::new();
    for (k, id) in ids.iter().enumerate() {
        reg.allocate(*id, 7, "host".to_string(), 22, "alice".to_string(), 1000).unwrap();
        reg.install(*id, k as u32 + 100, 2000).unwrap();
    }
    reg
}

#[test]
fn allocate_records_connecting_session() {
    let mut reg: SessionRegistry<u32> = SessionRegistry::new();
    assert_eq!(reg.allocate(1, 9, "example.org".to_string(), 2222, "bob".to_string(), 50), Ok(()));
    let s = reg.lookup(1).unwrap();
    assert_eq!(s.id, 1);
    assert_eq!(s.user_id, 9);
    assert_eq!(s.host, "example.org");
    assert_eq!(s.port, 2222);
    assert_eq!(s.username, "bob");
    assert_eq!(s.status, SessionStatus::Connecting);
    assert_eq!(s.created_at, 50);
    assert_eq!(s.updated_at, 50);
    assert_eq!(s.closed_at, None);
}

#[test]
fn allocate_refuses_a_live_identifier() {
    let mut reg: SessionRegistry<u32> = SessionRegistry::new();
    reg.allocate(1, 9, "h".to_string(), 22, "u".to_string(), 0).unwrap();
    assert_eq!(reg.allocate(1, 9, "h".to_string(), 22, "u".to_string(), 0), Err(RegistryError::Conflict));
}

#[test]
fn allocate_refuses_a_retired_identifier() {
    let mut reg = registry_with(&[5]);
    reg.remove(5, SessionStatus::Disconnected, 10).unwrap();
    assert_eq!(reg.allocate(5, 9, "h".to_string(), 22, "u".to_string(), 0), Err(RegistryError::Conflict));
}

#[test]
fn install_binds_and_connects() {
    let mut reg: SessionRegistry<u32> = SessionRegistry::new();
    reg.allocate(3, 1, "h".to_string(), 22, "u".to_string(), 10).unwrap();
    assert_eq!(reg.install(3, 77, 20), Ok(()));
    let s = reg.lookup(3).unwrap();
    assert_eq!(s.status, SessionStatus::Connected);
    assert_eq!(s.updated_at, 20);
    assert_eq!(s.created_at, 10);
    assert_eq!(reg.checkout(3), Ok(77));
}

#[test]
fn install_twice_is_a_conflict() {
    let mut reg = registry_with(&[3]);
    assert_eq!(reg.install(3, 1, 0), Err(RegistryError::Conflict));
    assert_eq!(reg.install(4, 1, 0), Err(RegistryError::Conflict));
}

#[test]
fn checkout_of_pending_or_unknown_is_not_found() {
    let mut reg: SessionRegistry<u32> = SessionRegistry::new();
    reg.allocate(1, 1, "h".to_string(), 22, "u".to_string(), 0).unwrap();
    assert_eq!(reg.checkout(1), Err(CheckoutError::NotFound));
    assert_eq!(reg.checkout(2), Err(CheckoutError::NotFound));
}

#[test]
fn second_checkout_waits_until_checkin() {
    let mut reg = registry_with(&[1]);
    let t = reg.checkout(1).unwrap();
    assert_eq!(reg.checkout(1), Err(CheckoutError::Busy));
    assert_eq!(reg.checkin(1, t), None);
    assert_eq!(reg.checkout(1), Ok(t));
}

#[test]
fn sessions_do_not_wait_on_each_other() {
    let mut reg = registry_with(&[1, 2]);
    let a = reg.checkout(1).unwrap();
    let b = reg.checkout(2).unwrap();
    assert_eq!(a, 100);
    assert_eq!(b, 101);
    assert_eq!(reg.checkin(2, b), None);
    assert_eq!(reg.checkout(1), Err(CheckoutError::Busy));
    assert_eq!(reg.checkout(2), Ok(101));
}

#[test]
fn checkin_after_removal_hands_transport_back() {
    let mut reg = registry_with(&[1]);
    let t = reg.checkout(1).unwrap();
    let (closed, held) = reg.remove(1, SessionStatus::Disconnected, 9).unwrap();
    assert_eq!(held, None);
    assert_eq!(closed.status, SessionStatus::Disconnected);
    assert_eq!(reg.checkin(1, t), Some(t));
}

#[test]
fn remove_returns_idle_transport_and_retires() {
    let mut reg = registry_with(&[8]);
    let (s, t) = reg.remove(8, SessionStatus::Error, 33).unwrap();
    assert_eq!(t, Some(100));
    assert_eq!(s.status, SessionStatus::Error);
    assert_eq!(s.closed_at, Some(33));
    assert_eq!(s.updated_at, 33);
    assert_eq!(reg.lookup(8).unwrap_err(), RegistryError::NotFound);
    assert_eq!(reg.remove(8, SessionStatus::Error, 34).unwrap_err(), RegistryError::NotFound);
}

#[test]
fn close_then_lookup_is_not_found() {
    let mut reg = registry_with(&[4, 6]);
    reg.remove(4, SessionStatus::Disconnected, 1).unwrap();
    assert_eq!(reg.lookup(4).unwrap_err(), RegistryError::NotFound);
    assert_eq!(reg.checkout(4), Err(CheckoutError::NotFound));
    assert_eq!(reg.lookup(6).unwrap().status, SessionStatus::Connected);
}

#[test]
fn list_by_owner_takes_only_that_owner() {
    let mut reg: SessionRegistry<u32> = SessionRegistry::new();
    reg.allocate(1, 10, "a".to_string(), 22, "u".to_string(), 0).unwrap();
    reg.allocate(2, 20, "b".to_string(), 22, "u".to_string(), 0).unwrap();
    reg.allocate(3, 10, "c".to_string(), 22, "u".to_string(), 0).unwrap();
    let mine = reg.list_by_owner(10);
    let ids: Vec<u128> = mine.iter().map(|s| s.id).collect();
    assert_eq!(ids, vec![1, 3]);
    assert!(reg.list_by_owner(30).is_empty());
}

#[test]
fn list_by_owner_is_newest_first() {
    let mut reg: SessionRegistry<u32> = SessionRegistry::new();
    reg.allocate(1, 10, "a".to_string(), 22, "u".to_string(), 300).unwrap();
    reg.allocate(2, 10, "b".to_string(), 22, "u".to_string(), 100).unwrap();
    reg.allocate(3, 10, "c".to_string(), 22, "u".to_string(), 500).unwrap();
    reg.allocate(4, 20, "d".to_string(), 22, "u".to_string(), 900).unwrap();
    let ids: Vec<u128> = reg.list_by_owner(10).iter().map(|s| s.id).collect();
    assert_eq!(ids, vec![3, 1, 2]);
}
