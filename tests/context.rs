use corebluetooth_dispatch::command::{Characteristic, GetPeripherals, ObjectRef, Tag, TargetRef};
use corebluetooth_dispatch::context::ContextTable;

fn target() -> TargetRef {
    TargetRef { object: ObjectRef { id: 3 }, delegate: 0 }
}

#[test]
fn erase_then_reconstruct_round_trips() {
    let mut t = ContextTable::new();
    let h = t.into_ctx(GetPeripherals { manager: target(), uuids: vec![1u128, 2u128], tag: Some(Tag(42)) });
    assert!(!t.is_empty());
    let c: GetPeripherals = t.from_ctx(h).expect("the command erased under the handle");
    assert_eq!(c.manager, target());
    assert_eq!(c.uuids, vec![1u128, 2u128]);
    assert_eq!(c.tag, Some(Tag(42)));
    assert!(t.is_empty());
    let again: Option<GetPeripherals> = t.from_ctx(h);
    assert!(again.is_none());
}

#[test]
fn reconstruct_with_other_type_gives_none() {
    let mut t = ContextTable::new();
    let h = t.into_ctx(Characteristic { peripheral: target(), characteristic: ObjectRef { id: 8 } });
    let wrong: Option<GetPeripherals> = t.from_ctx(h);
    assert!(wrong.is_none());
    assert!(t.is_empty());
}

#[test]
fn freed_slots_are_reused() {
    let mut t = ContextTable::new();
    let a = t.into_ctx(Characteristic { peripheral: target(), characteristic: ObjectRef { id: 1 } });
    let b = t.into_ctx(Characteristic { peripheral: target(), characteristic: ObjectRef { id: 2 } });
    assert_ne!(a, b);
    let first: Option<Characteristic> = t.from_ctx(a);
    assert_eq!(first.map(|c| c.characteristic), Some(ObjectRef { id: 1 }));
    let c = t.into_ctx(Characteristic { peripheral: target(), characteristic: ObjectRef { id: 3 } });
    assert_eq!(c, a);
    let second: Option<Characteristic> = t.from_ctx(b);
    assert_eq!(second.map(|c| c.characteristic), Some(ObjectRef { id: 2 }));
}
