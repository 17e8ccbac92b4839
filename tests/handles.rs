use rosu::error::BridgeError;
use rosu::registry::HandleRegistry;

#[test]
fn fresh_handle_validates() {
    let mut reg: HandleRegistry<u32> = HandleRegistry::new();
    let h = reg.allocate(7);
    assert!(h > 0);
    assert!(reg.contains(h));
    assert_eq!(reg.get(h), Ok(&7));
}

#[test]
fn released_handle_is_invalid() {
    let mut reg: HandleRegistry<u32> = HandleRegistry::new();
    let h = reg.allocate(7);
    assert_eq!(reg.release(h), Ok(7));
    assert_eq!(reg.get(h), Err(BridgeError::InvalidHandle));
    assert_eq!(reg.release(h), Err(BridgeError::InvalidHandle));
    assert_eq!(reg.take(h), Err(BridgeError::InvalidHandle));
    assert!(!reg.contains(h));
}

#[test]
fn reused_slot_gets_a_new_handle() {
    let mut reg: HandleRegistry<u32> = HandleRegistry::new();
    let h1 = reg.allocate(1);
    reg.release(h1).unwrap();
    let h2 = reg.allocate(2);
    assert_ne!(h1, h2);
    assert_eq!(reg.slot_count(), 1);
    assert_eq!(reg.get(h1), Err(BridgeError::InvalidHandle));
    assert_eq!(reg.get(h2), Ok(&2));
}

#[test]
fn null_and_forged_handles_are_invalid() {
    let mut reg: HandleRegistry<u32> = HandleRegistry::new();
    let h = reg.allocate(1);
    assert_eq!(reg.get(0), Err(BridgeError::InvalidHandle));
    assert_eq!(reg.get(-1), Err(BridgeError::InvalidHandle));
    assert_eq!(reg.get(h + 1), Err(BridgeError::InvalidHandle));
    assert_eq!(reg.get(h + (1i64 << 32)), Err(BridgeError::InvalidHandle));
}

#[test]
fn take_and_restore_keep_the_handle() {
    let mut reg: HandleRegistry<u32> = HandleRegistry::new();
    let h = reg.allocate(3);
    let v = reg.take(h).unwrap();
    assert_eq!(reg.get(h), Err(BridgeError::InvalidHandle));
    let other = reg.allocate(4);
    assert_ne!(other, h);
    reg.restore(h, v + 1);
    assert_eq!(reg.get(h), Ok(&4));
    assert_eq!(reg.get(other), Ok(&4));
}
