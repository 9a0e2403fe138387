use corebluetooth_dispatch::characteristic::WriteKind;
use corebluetooth_dispatch::command::{
    CancelConnect, Characteristic, Connect, Descriptor, DiscoverServices, GetPeripherals, Manager,
    ObjectRef, Peripheral, PeripheralServiceUuids, PeripheralTag, Scan, ScanOptions, Tag, TargetRef,
    WriteCharacteristic, WriteDescriptor,
};
use corebluetooth_dispatch::dispatch::{CentralEvent, Dispatcher, MaxWriteLen, NativeCall, Reply};

fn obj(id: u64) -> ObjectRef {
    ObjectRef { id }
}

fn setup() -> (Dispatcher, TargetRef, TargetRef) {
    let mut d = Dispatcher::new();
    let m = d.add_delegate();
    let p = d.add_delegate();
    (d, TargetRef { object: obj(1), delegate: m }, TargetRef { object: obj(2), delegate: p })
}

#[test]
fn read_characteristic_forwards_unmodified_handles() {
    let (mut d, _, p) = setup();
    Characteristic { peripheral: p, characteristic: obj(77) }.read(&mut d);
    match d.run_next(p.delegate) {
        Some(NativeCall::ReadCharacteristic { peripheral, characteristic }) => {
            assert_eq!(peripheral, obj(2));
            assert_eq!(characteristic, obj(77));
        }
        _ => panic!("expected a characteristic read"),
    }
    assert!(d.run_next(p.delegate).is_none());
    assert!(d.take_events(p.delegate).is_empty());
}

#[test]
fn get_peripherals_echoes_tag() {
    let (mut d, m, _) = setup();
    let uuids = vec![0x1111u128, 0x2222u128];
    GetPeripherals { manager: m, uuids, tag: Some(Tag(42)) }.get_peripherals(&mut d);
    let reply = match d.run_next(m.delegate) {
        Some(NativeCall::GetPeripherals { manager, uuids, reply }) => {
            assert_eq!(manager, obj(1));
            assert_eq!(uuids, vec![0x1111u128, 0x2222u128]);
            assert_eq!(reply, Reply { delegate: m.delegate, tag: Some(Tag(42)) });
            reply
        }
        _ => panic!("expected a lookup"),
    };
    d.complete_get_peripherals(reply, false, Some(vec![obj(9)]));
    let events = d.take_events(m.delegate);
    assert_eq!(events.len(), 1);
    match &events[0] {
        CentralEvent::GetPeripheralsResult { peripherals, tag } => {
            assert_eq!(*tag, Some(Tag(42)));
            assert_eq!(peripherals, &vec![obj(9)]);
            assert!(peripherals.len() <= 2);
        }
        _ => panic!("expected a lookup result"),
    }
}

#[test]
fn get_peripherals_with_nothing_found_is_empty() {
    let (mut d, m, _) = setup();
    GetPeripherals { manager: m, uuids: vec![5u128], tag: None }.get_peripherals_with_services(&mut d);
    let reply = match d.run_next(m.delegate) {
        Some(NativeCall::GetPeripheralsWithServices { reply, .. }) => reply,
        _ => panic!("expected a lookup by service"),
    };
    d.complete_get_peripherals(reply, true, None);
    let events = d.take_events(m.delegate);
    assert_eq!(events.len(), 1);
    assert!(matches!(
        &events[0],
        CentralEvent::GetPeripheralsWithServicesResult { peripherals, tag: None } if peripherals.is_empty()
    ));
}

#[test]
fn write_without_response_produces_no_event() {
    let (mut d, _, p) = setup();
    WriteCharacteristic {
        peripheral: p,
        characteristic: obj(5),
        value: vec![1u8, 2, 3, 255],
        kind: WriteKind::WithoutResponse,
    }
    .dispatch(&mut d);
    match d.run_next(p.delegate) {
        Some(NativeCall::WriteCharacteristic { peripheral, characteristic, value, kind }) => {
            assert_eq!(peripheral, obj(2));
            assert_eq!(characteristic, obj(5));
            assert_eq!(value, vec![1u8, 2, 3, 255]);
            assert_eq!(kind, WriteKind::WithoutResponse);
        }
        _ => panic!("expected a characteristic write"),
    }
    assert!(d.take_events(p.delegate).is_empty());
}

#[test]
fn max_write_len_echoes_tag() {
    let (mut d, _, p) = setup();
    PeripheralTag { peripheral: p, tag: Some(Tag(7)) }.get_max_write_len(&mut d);
    let reply = match d.run_next(p.delegate) {
        Some(NativeCall::MaxWriteLen { peripheral, reply }) => {
            assert_eq!(peripheral, obj(2));
            reply
        }
        _ => panic!("expected a write length query"),
    };
    d.complete_max_write_len(reply, 512, 182);
    let events = d.take_events(p.delegate);
    assert_eq!(events.len(), 1);
    match &events[0] {
        CentralEvent::GetMaxWriteLenResult { max_write_len, tag } => {
            assert_eq!(*max_write_len, MaxWriteLen { with_response: 512, without_response: 182 });
            assert_eq!(*tag, Some(Tag(7)));
        }
        _ => panic!("expected a write length result"),
    }
}

#[test]
fn every_command_runs_exactly_once() {
    let (mut d, m, p) = setup();
    Manager { manager: m }.cancel_scan(&mut d);
    Manager { manager: m }.drop_self(&mut d);
    CancelConnect { manager: m, peripheral: obj(2) }.cancel_connect(&mut d);
    Scan { manager: m, options: ScanOptions { allow_duplicates: true, services: None } }.dispatch(&mut d);
    Connect { manager: m, peripheral: obj(2) }.dispatch(&mut d);
    DiscoverServices { peripheral: p, uuids: Some(vec![3u128]) }.dispatch(&mut d);
    PeripheralServiceUuids { peripheral: p, service: obj(10), uuids: None }.discover_characteristics(&mut d);
    PeripheralServiceUuids { peripheral: p, service: obj(10), uuids: None }.discover_included_services(&mut d);
    Peripheral { peripheral: p }.read_rssi(&mut d);
    Characteristic { peripheral: p, characteristic: obj(11) }.discover_descriptors(&mut d);
    Characteristic { peripheral: p, characteristic: obj(11) }.subscribe(&mut d);
    Characteristic { peripheral: p, characteristic: obj(11) }.unsubscribe(&mut d);
    Descriptor { peripheral: p, descriptor: obj(12) }.read(&mut d);
    WriteDescriptor { peripheral: p, descriptor: obj(12), value: vec![0u8] }.dispatch(&mut d);

    let mut manager_calls = Vec::new();
    while let Some(c) = d.run_next(m.delegate) {
        manager_calls.push(c);
    }
    assert_eq!(manager_calls.len(), 5);
    assert!(matches!(manager_calls[0], NativeCall::CancelScan { manager } if manager == obj(1)));
    assert!(matches!(manager_calls[1], NativeCall::DropSelf { .. }));
    assert!(matches!(manager_calls[2], NativeCall::CancelConnect { peripheral, .. } if peripheral == obj(2)));
    assert!(matches!(&manager_calls[3], NativeCall::Scan { options, .. } if options.allow_duplicates));
    assert!(matches!(manager_calls[4], NativeCall::Connect { .. }));

    let mut peripheral_calls = Vec::new();
    while let Some(c) = d.run_next(p.delegate) {
        peripheral_calls.push(c);
    }
    assert_eq!(peripheral_calls.len(), 9);
    assert!(matches!(&peripheral_calls[0], NativeCall::DiscoverServices { uuids: Some(u), .. } if u == &vec![3u128]));
    assert!(matches!(peripheral_calls[1], NativeCall::DiscoverCharacteristics { service, .. } if service == obj(10)));
    assert!(matches!(peripheral_calls[2], NativeCall::DiscoverIncludedServices { .. }));
    assert!(matches!(peripheral_calls[3], NativeCall::ReadRssi { .. }));
    assert!(matches!(peripheral_calls[4], NativeCall::DiscoverDescriptors { characteristic, .. } if characteristic == obj(11)));
    assert!(matches!(peripheral_calls[5], NativeCall::SetNotifyValue { enabled: true, .. }));
    assert!(matches!(peripheral_calls[6], NativeCall::SetNotifyValue { enabled: false, .. }));
    assert!(matches!(peripheral_calls[7], NativeCall::ReadDescriptor { descriptor, .. } if descriptor == obj(12)));
    assert!(matches!(&peripheral_calls[8], NativeCall::WriteDescriptor { value, .. } if value == &vec![0u8]));
    assert!(d.run_next(m.delegate).is_none());
}

#[test]
fn same_target_runs_in_submission_order() {
    let (mut d, _, p) = setup();
    for id in 0..5u64 {
        Characteristic { peripheral: p, characteristic: obj(100 + id) }.read(&mut d);
    }
    for id in 0..5u64 {
        match d.run_next(p.delegate) {
            Some(NativeCall::ReadCharacteristic { characteristic, .. }) => assert_eq!(characteristic, obj(100 + id)),
            _ => panic!("expected a characteristic read"),
        }
    }
    assert!(d.run_next(p.delegate).is_none());
}

#[test]
fn targets_do_not_wait_on_each_other() {
    let (mut d, m, p) = setup();
    Manager { manager: m }.cancel_scan(&mut d);
    Peripheral { peripheral: p }.read_rssi(&mut d);
    assert!(matches!(d.run_next(p.delegate), Some(NativeCall::ReadRssi { .. })));
    assert!(matches!(d.run_next(m.delegate), Some(NativeCall::CancelScan { .. })));
}

#[test]
fn empty_queue_runs_nothing() {
    let (mut d, m, _) = setup();
    assert!(d.run_next(m.delegate).is_none());
}
