use corebluetooth_dispatch::{cooperative, sync};

#[test]
fn blocking_send_meets_receive() {
    let (s, r) = sync::channel::<u32>();
    let consumer = async_std::task::spawn_blocking(move || r.recv().ok());
    assert!(s.send_blocking(42));
    assert_eq!(async_std::task::block_on(consumer), Some(42));
}

#[test]
fn blocking_send_without_receiver_fails() {
    let (s, r) = sync::channel::<u32>();
    drop(r);
    assert!(!s.send_blocking(1));
}

#[test]
fn cooperative_send_is_received() {
    let (s, r) = cooperative::channel::<u32>();
    assert!(s.send_blocking(42));
    assert_eq!(async_std::task::block_on(r.recv()).ok(), Some(42));
}

#[test]
fn cooperative_send_without_receiver_fails() {
    let (s, r) = cooperative::channel::<u32>();
    drop(r);
    assert!(!s.send_blocking(1));
}
