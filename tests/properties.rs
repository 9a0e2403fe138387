use corebluetooth_dispatch::characteristic::{Characteristic, Properties};
use corebluetooth_dispatch::command::ObjectRef;

#[test]
fn unknown_property_bits_are_dropped() {
    let p = Properties::from_bits_truncate(0xffff_ffff);
    assert_eq!(p.bits(), 0x3ff);
    assert!(p.can_broadcast() && p.is_indicate_encryption_required());
}

#[test]
fn single_property_bits() {
    let p = Properties::from_bits_truncate(0x02 | 0x10);
    assert!(p.can_read());
    assert!(p.can_notify());
    assert!(!p.can_write());
    assert!(!p.can_write_without_response());
    assert!(!p.can_indicate());
    assert!(!p.has_extended_properties());
    assert!(!p.supports_authenticated_signed_writes());
    assert!(!p.is_notify_encryption_required());
}

#[test]
fn characteristic_view_keeps_id_and_properties() {
    let c = Characteristic::retain(0xabcdu128, 0x0408, ObjectRef { id: 4 });
    assert_eq!(c.id(), 0xabcd);
    assert_eq!(c.properties().bits(), 0x08);
    assert!(c.properties().can_write());
}
