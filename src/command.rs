use vstd::prelude::*;

use crate::characteristic::WriteKind;
use crate::dispatch::{Dispatcher, Op};

verus! {

/// A native object: a central manager, a peripheral, a service, a
/// characteristic or a descriptor, known by its identity.
#[derive(Clone, Copy, Debug, PartialEq, Eq, Structural)]
pub struct ObjectRef {
    pub id: u64,
}

/// A native object that owns a serial queue and an event sink, reachable
/// through its delegate: a central manager or a peripheral.
#[derive(Clone, Copy, Debug, PartialEq, Eq, Structural)]
pub struct TargetRef {
    pub object: ObjectRef,
    /// Index of the target's delegate in the dispatcher.
    pub delegate: usize,
}

/// An opaque, caller-chosen correlation token, echoed unchanged into the
/// event that answers the command carrying it.
#[derive(Clone, Copy, Debug, PartialEq, Eq, Structural)]
pub struct Tag(pub u64);

/// Options of a scan for advertising peripherals.
#[derive(Clone, Debug)]
pub struct ScanOptions {
    pub allow_duplicates: bool,
    pub services: Option<Vec<u128>>,
}

/// Operations on the central manager itself (cancel scan, release).
pub struct Manager {
    pub manager: TargetRef,
}

/// Lookup of known peripherals by identifier or by service.
pub struct GetPeripherals {
    pub manager: TargetRef,
    pub uuids: Vec<u128>,
    pub tag: Option<Tag>,
}

/// Cancellation of a pending or open connection.
pub struct CancelConnect {
    pub manager: TargetRef,
    pub peripheral: ObjectRef,
}

/// Start of a scan.
pub struct Scan {
    pub manager: TargetRef,
    pub options: ScanOptions,
}

/// Connection to a peripheral.
pub struct Connect {
    pub manager: TargetRef,
    pub peripheral: ObjectRef,
}

/// Discovery of a peripheral's services.
pub struct DiscoverServices {
    pub peripheral: TargetRef,
    pub uuids: Option<Vec<u128>>,
}

/// Discovery of a service's characteristics or included services.
pub struct PeripheralServiceUuids {
    pub peripheral: TargetRef,
    pub service: ObjectRef,
    pub uuids: Option<Vec<u128>>,
}

/// Operations on a peripheral alone (read RSSI).
pub struct Peripheral {
    pub peripheral: TargetRef,
}

/// Query of a peripheral's maximum write lengths.
pub struct PeripheralTag {
    pub peripheral: TargetRef,
    pub tag: Option<Tag>,
}

/// Operations on a characteristic (discover descriptors, read, subscribe,
/// unsubscribe).
pub struct Characteristic {
    pub peripheral: TargetRef,
    pub characteristic: ObjectRef,
}

/// Write of a characteristic's value.
pub struct WriteCharacteristic {
    pub peripheral: TargetRef,
    pub characteristic: ObjectRef,
    pub value: Vec<u8>,
    pub kind: WriteKind,
}

/// Read of a descriptor's value.
pub struct Descriptor {
    pub peripheral: TargetRef,
    pub descriptor: ObjectRef,
}

/// Write of a descriptor's value.
pub struct WriteDescriptor {
    pub peripheral: TargetRef,
    pub descriptor: ObjectRef,
    pub value: Vec<u8>,
}

/// A command with its type erased: what a context slot holds while the
/// command waits on its target's queue.
pub enum Payload {
    Manager(Manager),
    GetPeripherals(GetPeripherals),
    CancelConnect(CancelConnect),
    Scan(Scan),
    Connect(Connect),
    DiscoverServices(DiscoverServices),
    PeripheralServiceUuids(PeripheralServiceUuids),
    Peripheral(Peripheral),
    PeripheralTag(PeripheralTag),
    Characteristic(Characteristic),
    WriteCharacteristic(WriteCharacteristic),
    Descriptor(Descriptor),
    WriteDescriptor(WriteDescriptor),
}

/// A dispatchable operation: it can give itself up as a type-erased payload
/// and be taken back from one.
pub trait Command: Sized {
    /// The payload that holds this command.
    spec fn erased(self) -> Payload;

    /// The command of this type that a payload holds, if any.
    spec fn restored(p: Payload) -> Option<Self>;

    /// Restoring an erased command gives it back unchanged.
    proof fn lemma_restore_erased(c: Self)
        ensures
            Self::restored(c.erased()) == Some(c),
    ;

    fn into_payload(self) -> (p: Payload)
        ensures
            p == self.erased(),
    ;

    fn from_payload(p: Payload) -> (r: Option<Self>)
        ensures
            r == Self::restored(p),
    ;
}

impl Command for Manager {
    open spec fn erased(self) -> Payload {
        Payload::Manager(self)
    }

    open spec fn restored(p: Payload) -> Option<Self> {
        match p {
            Payload::Manager(c) => Some(c),
            _ => None,
        }
    }

    proof fn lemma_restore_erased(c: Self) {
    }

    fn into_payload(self) -> (p: Payload) {
        Payload::Manager(self)
    }

    fn from_payload(p: Payload) -> (r: Option<Self>) {
        match p {
            Payload::Manager(c) => Some(c),
            _ => None,
        }
    }
}

impl Command for GetPeripherals {
    open spec fn erased(self) -> Payload {
        Payload::GetPeripherals(self)
    }

    open spec fn restored(p: Payload) -> Option<Self> {
        match p {
            Payload::GetPeripherals(c) => Some(c),
            _ => None,
        }
    }

    proof fn lemma_restore_erased(c: Self) {
    }

    fn into_payload(self) -> (p: Payload) {
        Payload::GetPeripherals(self)
    }

    fn from_payload(p: Payload) -> (r: Option<Self>) {
        match p {
            Payload::GetPeripherals(c) => Some(c),
            _ => None,
        }
    }
}

impl Command for CancelConnect {
    open spec fn erased(self) -> Payload {
        Payload::CancelConnect(self)
    }

    open spec fn restored(p: Payload) -> Option<Self> {
        match p {
            Payload::CancelConnect(c) => Some(c),
            _ => None,
        }
    }

    proof fn lemma_restore_erased(c: Self) {
    }

    fn into_payload(self) -> (p: Payload) {
        Payload::CancelConnect(self)
    }

    fn from_payload(p: Payload) -> (r: Option<Self>) {
        match p {
            Payload::CancelConnect(c) => Some(c),
            _ => None,
        }
    }
}

impl Command for Scan {
    open spec fn erased(self) -> Payload {
        Payload::Scan(self)
    }

    open spec fn restored(p: Payload) -> Option<Self> {
        match p {
            Payload::Scan(c) => Some(c),
            _ => None,
        }
    }

    proof fn lemma_restore_erased(c: Self) {
    }

    fn into_payload(self) -> (p: Payload) {
        Payload::Scan(self)
    }

    fn from_payload(p: Payload) -> (r: Option<Self>) {
        match p {
            Payload::Scan(c) => Some(c),
            _ => None,
        }
    }
}

impl Command for Connect {
    open spec fn erased(self) -> Payload {
        Payload::Connect(self)
    }

    open spec fn restored(p: Payload) -> Option<Self> {
        match p {
            Payload::Connect(c) => Some(c),
            _ => None,
        }
    }

    proof fn lemma_restore_erased(c: Self) {
    }

    fn into_payload(self) -> (p: Payload) {
        Payload::Connect(self)
    }

    fn from_payload(p: Payload) -> (r: Option<Self>) {
        match p {
            Payload::Connect(c) => Some(c),
            _ => None,
        }
    }
}

impl Command for DiscoverServices {
    open spec fn erased(self) -> Payload {
        Payload::DiscoverServices(self)
    }

    open spec fn restored(p: Payload) -> Option<Self> {
        match p {
            Payload::DiscoverServices(c) => Some(c),
            _ => None,
        }
    }

    proof fn lemma_restore_erased(c: Self) {
    }

    fn into_payload(self) -> (p: Payload) {
        Payload::DiscoverServices(self)
    }

    fn from_payload(p: Payload) -> (r: Option<Self>) {
        match p {
            Payload::DiscoverServices(c) => Some(c),
            _ => None,
        }
    }
}

impl Command for PeripheralServiceUuids {
    open spec fn erased(self) -> Payload {
        Payload::PeripheralServiceUuids(self)
    }

    open spec fn restored(p: Payload) -> Option<Self> {
        match p {
            Payload::PeripheralServiceUuids(c) => Some(c),
            _ => None,
        }
    }

    proof fn lemma_restore_erased(c: Self) {
    }

    fn into_payload(self) -> (p: Payload) {
        Payload::PeripheralServiceUuids(self)
    }

    fn from_payload(p: Payload) -> (r: Option<Self>) {
        match p {
            Payload::PeripheralServiceUuids(c) => Some(c),
            _ => None,
        }
    }
}

impl Command for Peripheral {
    open spec fn erased(self) -> Payload {
        Payload::Peripheral(self)
    }

    open spec fn restored(p: Payload) -> Option<Self> {
        match p {
            Payload::Peripheral(c) => Some(c),
            _ => None,
        }
    }

    proof fn lemma_restore_erased(c: Self) {
    }

    fn into_payload(self) -> (p: Payload) {
        Payload::Peripheral(self)
    }

    fn from_payload(p: Payload) -> (r: Option<Self>) {
        match p {
            Payload::Peripheral(c) => Some(c),
            _ => None,
        }
    }
}

impl Command for PeripheralTag {
    open spec fn erased(self) -> Payload {
        Payload::PeripheralTag(self)
    }

    open spec fn restored(p: Payload) -> Option<Self> {
        match p {
            Payload::PeripheralTag(c) => Some(c),
            _ => None,
        }
    }

    proof fn lemma_restore_erased(c: Self) {
    }

    fn into_payload(self) -> (p: Payload) {
        Payload::PeripheralTag(self)
    }

    fn from_payload(p: Payload) -> (r: Option<Self>) {
        match p {
            Payload::PeripheralTag(c) => Some(c),
            _ => None,
        }
    }
}

impl Command for Characteristic {
    open spec fn erased(self) -> Payload {
        Payload::Characteristic(self)
    }

    open spec fn restored(p: Payload) -> Option<Self> {
        match p {
            Payload::Characteristic(c) => Some(c),
            _ => None,
        }
    }

    proof fn lemma_restore_erased(c: Self) {
    }

    fn into_payload(self) -> (p: Payload) {
        Payload::Characteristic(self)
    }

    fn from_payload(p: Payload) -> (r: Option<Self>) {
        match p {
            Payload::Characteristic(c) => Some(c),
            _ => None,
        }
    }
}

impl Command for WriteCharacteristic {
    open spec fn erased(self) -> Payload {
        Payload::WriteCharacteristic(self)
    }

    open spec fn restored(p: Payload) -> Option<Self> {
        match p {
            Payload::WriteCharacteristic(c) => Some(c),
            _ => None,
        }
    }

    proof fn lemma_restore_erased(c: Self) {
    }

    fn into_payload(self) -> (p: Payload) {
        Payload::WriteCharacteristic(self)
    }

    fn from_payload(p: Payload) -> (r: Option<Self>) {
        match p {
            Payload::WriteCharacteristic(c) => Some(c),
            _ => None,
        }
    }
}

impl Command for Descriptor {
    open spec fn erased(self) -> Payload {
        Payload::Descriptor(self)
    }

    open spec fn restored(p: Payload) -> Option<Self> {
        match p {
            Payload::Descriptor(c) => Some(c),
            _ => None,
        }
    }

    proof fn lemma_restore_erased(c: Self) {
    }

    fn into_payload(self) -> (p: Payload) {
        Payload::Descriptor(self)
    }

    fn from_payload(p: Payload) -> (r: Option<Self>) {
        match p {
            Payload::Descriptor(c) => Some(c),
            _ => None,
        }
    }
}

impl Command for WriteDescriptor {
    open spec fn erased(self) -> Payload {
        Payload::WriteDescriptor(self)
    }

    open spec fn restored(p: Payload) -> Option<Self> {
        match p {
            Payload::WriteDescriptor(c) => Some(c),
            _ => None,
        }
    }

    proof fn lemma_restore_erased(c: Self) {
    }

    fn into_payload(self) -> (p: Payload) {
        Payload::WriteDescriptor(self)
    }

    fn from_payload(p: Payload) -> (r: Option<Self>) {
        match p {
            Payload::WriteDescriptor(c) => Some(c),
            _ => None,
        }
    }
}

impl Manager {
    /// Stops scanning for peripherals.
    ///
    /// Queues the command on its target's serial queue and returns at once.
    pub fn cancel_scan(self, d: &mut Dispatcher)
        requires
            old(d).wf(),
            self.manager.delegate < old(d).delegate_count(),
        ensures
            final(d).wf(),
            final(d).dispatched(*old(d), self.manager.delegate as int, Op::CancelScan, self.erased()),
    {
        let t = self.manager.delegate;
        d.submit(t, Op::CancelScan, self.into_payload());
    }


    /// Releases the central manager.
    ///
    /// Queues the command on its target's serial queue and returns at once.
    pub fn drop_self(self, d: &mut Dispatcher)
        requires
            old(d).wf(),
            self.manager.delegate < old(d).delegate_count(),
        ensures
            final(d).wf(),
            final(d).dispatched(*old(d), self.manager.delegate as int, Op::DropSelf, self.erased()),
    {
        let t = self.manager.delegate;
        d.submit(t, Op::DropSelf, self.into_payload());
    }
}

impl GetPeripherals {
    /// Looks up the known peripherals with the given identifiers; the answer comes as a `GetPeripheralsResult` event carrying the tag.
    ///
    /// Queues the command on its target's serial queue and returns at once.
    pub fn get_peripherals(self, d: &mut Dispatcher)
        requires
            old(d).wf(),
            self.manager.delegate < old(d).delegate_count(),
        ensures
            final(d).wf(),
            final(d).dispatched(*old(d), self.manager.delegate as int, Op::GetPeripherals, self.erased()),
    {
        let t = self.manager.delegate;
        d.submit(t, Op::GetPeripherals, self.into_payload());
    }


    /// Looks up the connected peripherals that offer the given services; the answer comes as a `GetPeripheralsWithServicesResult` event carrying the tag.
    ///
    /// Queues the command on its target's serial queue and returns at once.
    pub fn get_peripherals_with_services(self, d: &mut Dispatcher)
        requires
            old(d).wf(),
            self.manager.delegate < old(d).delegate_count(),
        ensures
            final(d).wf(),
            final(d).dispatched(*old(d), self.manager.delegate as int, Op::GetPeripheralsWithServices, self.erased()),
    {
        let t = self.manager.delegate;
        d.submit(t, Op::GetPeripheralsWithServices, self.into_payload());
    }
}

impl CancelConnect {
    /// Cancels a pending or open connection to the peripheral.
    ///
    /// Queues the command on its target's serial queue and returns at once.
    pub fn cancel_connect(self, d: &mut Dispatcher)
        requires
            old(d).wf(),
            self.manager.delegate < old(d).delegate_count(),
        ensures
            final(d).wf(),
            final(d).dispatched(*old(d), self.manager.delegate as int, Op::CancelConnect, self.erased()),
    {
        let t = self.manager.delegate;
        d.submit(t, Op::CancelConnect, self.into_payload());
    }
}

impl Scan {
    /// Starts scanning with the given options.
    ///
    /// Queues the command on its target's serial queue and returns at once.
    pub fn dispatch(self, d: &mut Dispatcher)
        requires
            old(d).wf(),
            self.manager.delegate < old(d).delegate_count(),
        ensures
            final(d).wf(),
            final(d).dispatched(*old(d), self.manager.delegate as int, Op::Scan, self.erased()),
    {
        let t = self.manager.delegate;
        d.submit(t, Op::Scan, self.into_payload());
    }
}

impl Connect {
    /// Connects to the peripheral.
    ///
    /// Queues the command on its target's serial queue and returns at once.
    pub fn dispatch(self, d: &mut Dispatcher)
        requires
            old(d).wf(),
            self.manager.delegate < old(d).delegate_count(),
        ensures
            final(d).wf(),
            final(d).dispatched(*old(d), self.manager.delegate as int, Op::Connect, self.erased()),
    {
        let t = self.manager.delegate;
        d.submit(t, Op::Connect, self.into_payload());
    }
}

impl DiscoverServices {
    /// Discovers the peripheral's services, all or those listed.
    ///
    /// Queues the command on its target's serial queue and returns at once.
    pub fn dispatch(self, d: &mut Dispatcher)
        requires
            old(d).wf(),
            self.peripheral.delegate < old(d).delegate_count(),
        ensures
            final(d).wf(),
            final(d).dispatched(*old(d), self.peripheral.delegate as int, Op::DiscoverServices, self.erased()),
    {
        let t = self.peripheral.delegate;
        d.submit(t, Op::DiscoverServices, self.into_payload());
    }
}

impl PeripheralServiceUuids {
    /// Discovers the service's characteristics, all or those listed.
    ///
    /// Queues the command on its target's serial queue and returns at once.
    pub fn discover_characteristics(self, d: &mut Dispatcher)
        requires
            old(d).wf(),
            self.peripheral.delegate < old(d).delegate_count(),
        ensures
            final(d).wf(),
            final(d).dispatched(*old(d), self.peripheral.delegate as int, Op::DiscoverCharacteristics, self.erased()),
    {
        let t = self.peripheral.delegate;
        d.submit(t, Op::DiscoverCharacteristics, self.into_payload());
    }


    /// Discovers the services that the service includes, all or those listed.
    ///
    /// Queues the command on its target's serial queue and returns at once.
    pub fn discover_included_services(self, d: &mut Dispatcher)
        requires
            old(d).wf(),
            self.peripheral.delegate < old(d).delegate_count(),
        ensures
            final(d).wf(),
            final(d).dispatched(*old(d), self.peripheral.delegate as int, Op::DiscoverIncludedServices, self.erased()),
    {
        let t = self.peripheral.delegate;
        d.submit(t, Op::DiscoverIncludedServices, self.into_payload());
    }
}

impl Peripheral {
    /// Reads the peripheral's signal strength.
    ///
    /// Queues the command on its target's serial queue and returns at once.
    pub fn read_rssi(self, d: &mut Dispatcher)
        requires
            old(d).wf(),
            self.peripheral.delegate < old(d).delegate_count(),
        ensures
            final(d).wf(),
            final(d).dispatched(*old(d), self.peripheral.delegate as int, Op::ReadRssi, self.erased()),
    {
        let t = self.peripheral.delegate;
        d.submit(t, Op::ReadRssi, self.into_payload());
    }
}

impl PeripheralTag {
    /// Queries the peripheral's maximum write lengths; the answer comes as a `GetMaxWriteLenResult` event carrying the tag.
    ///
    /// Queues the command on its target's serial queue and returns at once.
    pub fn get_max_write_len(self, d: &mut Dispatcher)
        requires
            old(d).wf(),
            self.peripheral.delegate < old(d).delegate_count(),
        ensures
            final(d).wf(),
            final(d).dispatched(*old(d), self.peripheral.delegate as int, Op::GetMaxWriteLen, self.erased()),
    {
        let t = self.peripheral.delegate;
        d.submit(t, Op::GetMaxWriteLen, self.into_payload());
    }
}

impl Characteristic {
    /// Discovers the characteristic's descriptors.
    ///
    /// Queues the command on its target's serial queue and returns at once.
    pub fn discover_descriptors(self, d: &mut Dispatcher)
        requires
            old(d).wf(),
            self.peripheral.delegate < old(d).delegate_count(),
        ensures
            final(d).wf(),
            final(d).dispatched(*old(d), self.peripheral.delegate as int, Op::DiscoverDescriptors, self.erased()),
    {
        let t = self.peripheral.delegate;
        d.submit(t, Op::DiscoverDescriptors, self.into_payload());
    }


    /// Reads the characteristic's value.
    ///
    /// Queues the command on its target's serial queue and returns at once.
    pub fn read(self, d: &mut Dispatcher)
        requires
            old(d).wf(),
            self.peripheral.delegate < old(d).delegate_count(),
        ensures
            final(d).wf(),
            final(d).dispatched(*old(d), self.peripheral.delegate as int, Op::ReadCharacteristic, self.erased()),
    {
        let t = self.peripheral.delegate;
        d.submit(t, Op::ReadCharacteristic, self.into_payload());
    }


    /// Enables notifications of the characteristic's value.
    ///
    /// Queues the command on its target's serial queue and returns at once.
    pub fn subscribe(self, d: &mut Dispatcher)
        requires
            old(d).wf(),
            self.peripheral.delegate < old(d).delegate_count(),
        ensures
            final(d).wf(),
            final(d).dispatched(*old(d), self.peripheral.delegate as int, Op::Subscribe, self.erased()),
    {
        let t = self.peripheral.delegate;
        d.submit(t, Op::Subscribe, self.into_payload());
    }


    /// Disables notifications of the characteristic's value.
    ///
    /// Queues the command on its target's serial queue and returns at once.
    pub fn unsubscribe(self, d: &mut Dispatcher)
        requires
            old(d).wf(),
            self.peripheral.delegate < old(d).delegate_count(),
        ensures
            final(d).wf(),
            final(d).dispatched(*old(d), self.peripheral.delegate as int, Op::Unsubscribe, self.erased()),
    {
        let t = self.peripheral.delegate;
        d.submit(t, Op::Unsubscribe, self.into_payload());
    }
}

impl WriteCharacteristic {
    /// Writes the value to the characteristic, with or without response.
    ///
    /// Queues the command on its target's serial queue and returns at once.
    pub fn dispatch(self, d: &mut Dispatcher)
        requires
            old(d).wf(),
            self.peripheral.delegate < old(d).delegate_count(),
        ensures
            final(d).wf(),
            final(d).dispatched(*old(d), self.peripheral.delegate as int, Op::WriteCharacteristic, self.erased()),
    {
        let t = self.peripheral.delegate;
        d.submit(t, Op::WriteCharacteristic, self.into_payload());
    }
}

impl Descriptor {
    /// Reads the descriptor's value.
    ///
    /// Queues the command on its target's serial queue and returns at once.
    pub fn read(self, d: &mut Dispatcher)
        requires
            old(d).wf(),
            self.peripheral.delegate < old(d).delegate_count(),
        ensures
            final(d).wf(),
            final(d).dispatched(*old(d), self.peripheral.delegate as int, Op::ReadDescriptor, self.erased()),
    {
        let t = self.peripheral.delegate;
        d.submit(t, Op::ReadDescriptor, self.into_payload());
    }
}

impl WriteDescriptor {
    /// Writes the value to the descriptor.
    ///
    /// Queues the command on its target's serial queue and returns at once.
    pub fn dispatch(self, d: &mut Dispatcher)
        requires
            old(d).wf(),
            self.peripheral.delegate < old(d).delegate_count(),
        ensures
            final(d).wf(),
            final(d).dispatched(*old(d), self.peripheral.delegate as int, Op::WriteDescriptor, self.erased()),
    {
        let t = self.peripheral.delegate;
        d.submit(t, Op::WriteDescriptor, self.into_payload());
    }
}

} // verus!
