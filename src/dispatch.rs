use vstd::prelude::*;

use crate::characteristic::WriteKind;
use crate::command::{Command, GetPeripherals, ObjectRef, Payload, PeripheralTag, ScanOptions, Tag};
use crate::context::ContextTable;
use std::collections::VecDeque;

verus! {

/// The trampoline that a queued job runs: which operation to perform on the
/// command that the job's context holds.
#[derive(Clone, Copy, Debug, PartialEq, Eq, Structural)]
pub enum Op {
    CancelScan,
    DropSelf,
    GetPeripherals,
    GetPeripheralsWithServices,
    CancelConnect,
    Scan,
    Connect,
    DiscoverServices,
    DiscoverCharacteristics,
    DiscoverIncludedServices,
    ReadRssi,
    GetMaxWriteLen,
    DiscoverDescriptors,
    ReadCharacteristic,
    Subscribe,
    Unsubscribe,
    WriteCharacteristic,
    ReadDescriptor,
    WriteDescriptor,
}

/// A unit of work on a target's serial queue: a trampoline and the handle of
/// the erased command it reconstructs.
#[derive(Clone, Copy, Debug, PartialEq, Eq, Structural)]
pub struct Job {
    pub op: Op,
    pub ctx: usize,
}

/// Where the result of a native call goes: the event sink of a delegate, with
/// the caller's tag.
#[derive(Clone, Copy, Debug, PartialEq, Eq, Structural)]
pub struct Reply {
    pub delegate: usize,
    pub tag: Option<Tag>,
}

/// The forwarding call into the native stack that a trampoline performs.
pub enum NativeCall {
    CancelScan { manager: ObjectRef },
    DropSelf { manager: ObjectRef },
    GetPeripherals { manager: ObjectRef, uuids: Vec<u128>, reply: Reply },
    GetPeripheralsWithServices { manager: ObjectRef, uuids: Vec<u128>, reply: Reply },
    CancelConnect { manager: ObjectRef, peripheral: ObjectRef },
    Scan { manager: ObjectRef, options: ScanOptions },
    Connect { manager: ObjectRef, peripheral: ObjectRef },
    DiscoverServices { peripheral: ObjectRef, uuids: Option<Vec<u128>> },
    DiscoverCharacteristics { peripheral: ObjectRef, service: ObjectRef, uuids: Option<Vec<u128>> },
    DiscoverIncludedServices { peripheral: ObjectRef, service: ObjectRef, uuids: Option<Vec<u128>> },
    ReadRssi { peripheral: ObjectRef },
    MaxWriteLen { peripheral: ObjectRef, reply: Reply },
    DiscoverDescriptors { peripheral: ObjectRef, characteristic: ObjectRef },
    ReadCharacteristic { peripheral: ObjectRef, characteristic: ObjectRef },
    SetNotifyValue { peripheral: ObjectRef, characteristic: ObjectRef, enabled: bool },
    WriteCharacteristic { peripheral: ObjectRef, characteristic: ObjectRef, value: Vec<u8>, kind: WriteKind },
    ReadDescriptor { peripheral: ObjectRef, descriptor: ObjectRef },
    WriteDescriptor { peripheral: ObjectRef, descriptor: ObjectRef, value: Vec<u8> },
}

/// The call that trampoline `op` makes for the command in `p`, or `None`
/// where `p` holds a command of another type than `op` reconstructs.
pub open spec fn forward(op: Op, p: Payload) -> Option<NativeCall> {
    match op {
        Op::CancelScan => match p {
            Payload::Manager(c) => Some(NativeCall::CancelScan { manager: c.manager.object }),
            _ => None,
        },
        Op::DropSelf => match p {
            Payload::Manager(c) => Some(NativeCall::DropSelf { manager: c.manager.object }),
            _ => None,
        },
        Op::GetPeripherals => match p {
            Payload::GetPeripherals(c) => Some(NativeCall::GetPeripherals { manager: c.manager.object, uuids: c.uuids, reply: Reply { delegate: c.manager.delegate, tag: c.tag } }),
            _ => None,
        },
        Op::GetPeripheralsWithServices => match p {
            Payload::GetPeripherals(c) => Some(NativeCall::GetPeripheralsWithServices { manager: c.manager.object, uuids: c.uuids, reply: Reply { delegate: c.manager.delegate, tag: c.tag } }),
            _ => None,
        },
        Op::CancelConnect => match p {
            Payload::CancelConnect(c) => Some(NativeCall::CancelConnect { manager: c.manager.object, peripheral: c.peripheral }),
            _ => None,
        },
        Op::Scan => match p {
            Payload::Scan(c) => Some(NativeCall::Scan { manager: c.manager.object, options: c.options }),
            _ => None,
        },
        Op::Connect => match p {
            Payload::Connect(c) => Some(NativeCall::Connect { manager: c.manager.object, peripheral: c.peripheral }),
            _ => None,
        },
        Op::DiscoverServices => match p {
            Payload::DiscoverServices(c) => Some(NativeCall::DiscoverServices { peripheral: c.peripheral.object, uuids: c.uuids }),
            _ => None,
        },
        Op::DiscoverCharacteristics => match p {
            Payload::PeripheralServiceUuids(c) => Some(NativeCall::DiscoverCharacteristics { peripheral: c.peripheral.object, service: c.service, uuids: c.uuids }),
            _ => None,
        },
        Op::DiscoverIncludedServices => match p {
            Payload::PeripheralServiceUuids(c) => Some(NativeCall::DiscoverIncludedServices { peripheral: c.peripheral.object, service: c.service, uuids: c.uuids }),
            _ => None,
        },
        Op::ReadRssi => match p {
            Payload::Peripheral(c) => Some(NativeCall::ReadRssi { peripheral: c.peripheral.object }),
            _ => None,
        },
        Op::GetMaxWriteLen => match p {
            Payload::PeripheralTag(c) => Some(NativeCall::MaxWriteLen { peripheral: c.peripheral.object, reply: Reply { delegate: c.peripheral.delegate, tag: c.tag } }),
            _ => None,
        },
        Op::DiscoverDescriptors => match p {
            Payload::Characteristic(c) => Some(NativeCall::DiscoverDescriptors { peripheral: c.peripheral.object, characteristic: c.characteristic }),
            _ => None,
        },
        Op::ReadCharacteristic => match p {
            Payload::Characteristic(c) => Some(NativeCall::ReadCharacteristic { peripheral: c.peripheral.object, characteristic: c.characteristic }),
            _ => None,
        },
        Op::Subscribe => match p {
            Payload::Characteristic(c) => Some(NativeCall::SetNotifyValue { peripheral: c.peripheral.object, characteristic: c.characteristic, enabled: true }),
            _ => None,
        },
        Op::Unsubscribe => match p {
            Payload::Characteristic(c) => Some(NativeCall::SetNotifyValue { peripheral: c.peripheral.object, characteristic: c.characteristic, enabled: false }),
            _ => None,
        },
        Op::WriteCharacteristic => match p {
            Payload::WriteCharacteristic(c) => Some(NativeCall::WriteCharacteristic { peripheral: c.peripheral.object, characteristic: c.characteristic, value: c.value, kind: c.kind }),
            _ => None,
        },
        Op::ReadDescriptor => match p {
            Payload::Descriptor(c) => Some(NativeCall::ReadDescriptor { peripheral: c.peripheral.object, descriptor: c.descriptor }),
            _ => None,
        },
        Op::WriteDescriptor => match p {
            Payload::WriteDescriptor(c) => Some(NativeCall::WriteDescriptor { peripheral: c.peripheral.object, descriptor: c.descriptor, value: c.value }),
            _ => None,
        },
    }
}

/// Runs trampoline `op` on a reconstructed command.
pub fn trampoline(op: Op, p: Payload) -> (r: Option<NativeCall>)
    ensures
        r == forward(op, p),
{
    match op {
        Op::CancelScan => match p {
            Payload::Manager(c) => Some(NativeCall::CancelScan { manager: c.manager.object }),
            _ => None,
        },
        Op::DropSelf => match p {
            Payload::Manager(c) => Some(NativeCall::DropSelf { manager: c.manager.object }),
            _ => None,
        },
        Op::GetPeripherals => match p {
            Payload::GetPeripherals(c) => Some(NativeCall::GetPeripherals { manager: c.manager.object, uuids: c.uuids, reply: Reply { delegate: c.manager.delegate, tag: c.tag } }),
            _ => None,
        },
        Op::GetPeripheralsWithServices => match p {
            Payload::GetPeripherals(c) => Some(NativeCall::GetPeripheralsWithServices { manager: c.manager.object, uuids: c.uuids, reply: Reply { delegate: c.manager.delegate, tag: c.tag } }),
            _ => None,
        },
        Op::CancelConnect => match p {
            Payload::CancelConnect(c) => Some(NativeCall::CancelConnect { manager: c.manager.object, peripheral: c.peripheral }),
            _ => None,
        },
        Op::Scan => match p {
            Payload::Scan(c) => Some(NativeCall::Scan { manager: c.manager.object, options: c.options }),
            _ => None,
        },
        Op::Connect => match p {
            Payload::Connect(c) => Some(NativeCall::Connect { manager: c.manager.object, peripheral: c.peripheral }),
            _ => None,
        },
        Op::DiscoverServices => match p {
            Payload::DiscoverServices(c) => Some(NativeCall::DiscoverServices { peripheral: c.peripheral.object, uuids: c.uuids }),
            _ => None,
        },
        Op::DiscoverCharacteristics => match p {
            Payload::PeripheralServiceUuids(c) => Some(NativeCall::DiscoverCharacteristics { peripheral: c.peripheral.object, service: c.service, uuids: c.uuids }),
            _ => None,
        },
        Op::DiscoverIncludedServices => match p {
            Payload::PeripheralServiceUuids(c) => Some(NativeCall::DiscoverIncludedServices { peripheral: c.peripheral.object, service: c.service, uuids: c.uuids }),
            _ => None,
        },
        Op::ReadRssi => match p {
            Payload::Peripheral(c) => Some(NativeCall::ReadRssi { peripheral: c.peripheral.object }),
            _ => None,
        },
        Op::GetMaxWriteLen => match p {
            Payload::PeripheralTag(c) => Some(NativeCall::MaxWriteLen { peripheral: c.peripheral.object, reply: Reply { delegate: c.peripheral.delegate, tag: c.tag } }),
            _ => None,
        },
        Op::DiscoverDescriptors => match p {
            Payload::Characteristic(c) => Some(NativeCall::DiscoverDescriptors { peripheral: c.peripheral.object, characteristic: c.characteristic }),
            _ => None,
        },
        Op::ReadCharacteristic => match p {
            Payload::Characteristic(c) => Some(NativeCall::ReadCharacteristic { peripheral: c.peripheral.object, characteristic: c.characteristic }),
            _ => None,
        },
        Op::Subscribe => match p {
            Payload::Characteristic(c) => Some(NativeCall::SetNotifyValue { peripheral: c.peripheral.object, characteristic: c.characteristic, enabled: true }),
            _ => None,
        },
        Op::Unsubscribe => match p {
            Payload::Characteristic(c) => Some(NativeCall::SetNotifyValue { peripheral: c.peripheral.object, characteristic: c.characteristic, enabled: false }),
            _ => None,
        },
        Op::WriteCharacteristic => match p {
            Payload::WriteCharacteristic(c) => Some(NativeCall::WriteCharacteristic { peripheral: c.peripheral.object, characteristic: c.characteristic, value: c.value, kind: c.kind }),
            _ => None,
        },
        Op::ReadDescriptor => match p {
            Payload::Descriptor(c) => Some(NativeCall::ReadDescriptor { peripheral: c.peripheral.object, descriptor: c.descriptor }),
            _ => None,
        },
        Op::WriteDescriptor => match p {
            Payload::WriteDescriptor(c) => Some(NativeCall::WriteDescriptor { peripheral: c.peripheral.object, descriptor: c.descriptor, value: c.value }),
            _ => None,
        },
    }
}

/// A peripheral's maximum write lengths, in bytes, for each kind of write.
#[derive(Clone, Copy, Debug, PartialEq, Eq, Structural)]
pub struct MaxWriteLen {
    pub with_response: usize,
    pub without_response: usize,
}

/// A result delivered on a delegate's event sink.
pub enum CentralEvent {
    GetPeripheralsResult { peripherals: Vec<ObjectRef>, tag: Option<Tag> },
    GetPeripheralsWithServicesResult { peripherals: Vec<ObjectRef>, tag: Option<Tag> },
    GetMaxWriteLenResult { max_write_len: MaxWriteLen, tag: Option<Tag> },
}

impl CentralEvent {
    /// The tag of the command that this event answers.
    pub open spec fn tag(self) -> Option<Tag> {
        match self {
            CentralEvent::GetPeripheralsResult { tag, .. } => tag,
            CentralEvent::GetPeripheralsWithServicesResult { tag, .. } => tag,
            CentralEvent::GetMaxWriteLenResult { tag, .. } => tag,
        }
    }
}

/// The peripherals that a lookup found: none where the native call gave
/// nothing.
pub open spec fn found_view(found: Option<Vec<ObjectRef>>) -> Seq<ObjectRef> {
    match found {
        Some(v) => v@,
        None => Seq::empty(),
    }
}

/// The event that answers a lookup of peripherals.
pub open spec fn is_peripherals_result(
    e: CentralEvent,
    with_services: bool,
    found: Seq<ObjectRef>,
    tag: Option<Tag>,
) -> bool {
    if with_services {
        e matches CentralEvent::GetPeripheralsWithServicesResult { peripherals, tag: t }
            && peripherals@ == found && t == tag
    } else {
        e matches CentralEvent::GetPeripheralsResult { peripherals, tag: t }
            && peripherals@ == found && t == tag
    }
}

/// The serial queue and the event sink of one target.
struct Delegate {
    queue: VecDeque<Job>,
    events: Vec<CentralEvent>,
}

/// The delegates of all targets, and the commands erased while their jobs
/// wait on those targets' queues.
pub struct Dispatcher {
    contexts: ContextTable,
    delegates: Vec<Delegate>,
}

impl Dispatcher {
    /// The erased commands, by handle.
    pub closed spec fn contexts(&self) -> Map<usize, Payload> {
        self.contexts@
    }

    /// Number of targets, whose delegates are numbered from zero.
    pub closed spec fn delegate_count(&self) -> nat {
        self.delegates@.len()
    }

    /// The jobs waiting on delegate `d`'s queue, the next to run first.
    pub closed spec fn queue(&self, d: int) -> Seq<Job> {
        self.delegates@[d].queue@
    }

    /// The events delivered to delegate `d`'s sink, oldest first.
    pub closed spec fn events(&self, d: int) -> Seq<CentralEvent> {
        self.delegates@[d].events@
    }

    /// A job whose command waits in its slot, of the type its trampoline
    /// reconstructs.
    pub open spec fn job_live(&self, j: Job) -> bool {
        self.contexts().dom().contains(j.ctx) && forward(j.op, self.contexts()[j.ctx]) is Some
    }

    /// Some queued job runs the command in slot `h`.
    pub open spec fn referenced(&self, h: usize) -> bool {
        exists|d: int, i: int|
            0 <= d < self.delegate_count() && 0 <= i < self.queue(d).len() && #[trigger] self.queue(
                d,
            )[i].ctx == h
    }

    /// Every queued job can run, no two queued jobs share a command, and
    /// every command in the table waits for a queued job: each erased command
    /// is reconstructed by exactly one run.
    pub open spec fn wf(&self) -> bool {
        &&& forall|d: int, i: int|
            0 <= d < self.delegate_count() && 0 <= i < self.queue(d).len() ==> self.job_live(
                #[trigger] self.queue(d)[i],
            )
        &&& forall|d1: int, i1: int, d2: int, i2: int|
            0 <= d1 < self.delegate_count() && 0 <= d2 < self.delegate_count() && 0 <= i1 < self.queue(
                d1,
            ).len() && 0 <= i2 < self.queue(d2).len() && (d1 != d2 || i1 != i2)
                ==> #[trigger] self.queue(d1)[i1].ctx != #[trigger] self.queue(d2)[i2].ctx
        &&& forall|h: usize| #[trigger] self.contexts().dom().contains(h) ==> self.referenced(h)
    }

    /// The call that the next job on delegate `d`'s queue makes, if any job
    /// waits there.
    pub open spec fn next_call(&self, d: int) -> Option<NativeCall> {
        if self.queue(d).len() == 0 {
            None
        } else {
            forward(self.queue(d)[0].op, self.contexts()[self.queue(d)[0].ctx])
        }
    }

    /// `self` is `pre` with command `p` erased into a fresh slot and a job
    /// running `op` on it appended to delegate `d`'s queue, and nothing else
    /// changed.
    pub open spec fn dispatched(&self, pre: Dispatcher, d: int, op: Op, p: Payload) -> bool {
        &&& exists|h: usize|
            !pre.contexts().dom().contains(h) && self.contexts() == pre.contexts().insert(h, p)
                && #[trigger] self.queue(d) == pre.queue(d).push(Job { op, ctx: h })
        &&& self.delegate_count() == pre.delegate_count()
        &&& forall|e: int| 0 <= e < self.delegate_count() && e != d ==> #[trigger] self.queue(e) == pre.queue(e)
        &&& forall|e: int| 0 <= e < self.delegate_count() ==> #[trigger] self.events(e) == pre.events(e)
    }

    pub fn new() -> (r: Self)
        ensures
            r.wf(),
            r.delegate_count() == 0,
            r.contexts() == Map::<usize, Payload>::empty(),
    {
        Dispatcher { contexts: ContextTable::new(), delegates: Vec::new() }
    }

    /// Adds the delegate of a new target, with an empty queue and sink, and
    /// returns its index.
    pub fn add_delegate(&mut self) -> (d: usize)
        requires
            old(self).wf(),
        ensures
            final(self).wf(),
            d == old(self).delegate_count(),
            final(self).delegate_count() == old(self).delegate_count() + 1,
            final(self).queue(d as int) == Seq::<Job>::empty(),
            final(self).events(d as int) == Seq::<CentralEvent>::empty(),
            final(self).contexts() == old(self).contexts(),
            forall|e: int| 0 <= e < old(self).delegate_count() ==> #[trigger] final(self).queue(e) == old(self).queue(e)
                && final(self).events(e) == old(self).events(e),
    {
        let d = self.delegates.len();
        self.delegates.push(Delegate { queue: VecDeque::new(), events: Vec::new() });
        assert forall|e: int| 0 <= e < old(self).delegate_count() implies #[trigger] self.queue(e)
            == old(self).queue(e) && self.events(e) == old(self).events(e) by {
            assert(self.delegates@[e] == old(self).delegates@[e]);
        }
        assert forall|h: usize| #[trigger] self.contexts().dom().contains(h) implies self.referenced(h) by {
            assert(old(self).contexts().dom().contains(h));
            let (e, i) = choose|e: int, i: int|
                0 <= e < old(self).delegate_count() && 0 <= i < old(self).queue(e).len()
                    && #[trigger] old(self).queue(e)[i].ctx == h;
            assert(self.delegates@[e] == old(self).delegates@[e]);
            assert(self.queue(e)[i].ctx == h);
        }
        d
    }

    /// Erases `p` into a fresh slot and queues a job running `op` on it at the
    /// back of delegate `d`'s queue. Returns at once: the job runs when
    /// [`Dispatcher::run_next`] reaches it.
    pub fn submit(&mut self, d: usize, op: Op, p: Payload)
        requires
            old(self).wf(),
            d < old(self).delegate_count(),
            forward(op, p) is Some,
        ensures
            final(self).wf(),
            final(self).dispatched(*old(self), d as int, op, p),
    {
        let ghost pre = *self;
        let h = self.contexts.insert(p);
        let job = Job { op, ctx: h };
        let mut del = self.delegates.remove(d);
        del.queue.push_back(job);
        self.delegates.insert(d, del);
        assert(self.delegates@ =~= pre.delegates@.update(d as int, del));
        assert(self.queue(d as int) == pre.queue(d as int).push(job));
        assert(!pre.contexts().dom().contains(h) && self.contexts() == pre.contexts().insert(h, p)
            && self.queue(d as int) == pre.queue(d as int).push(Job { op, ctx: h }));
        assert forall|e: int| 0 <= e < self.delegate_count() && e != d implies #[trigger] self.queue(e)
            == pre.queue(e) by {}
        assert forall|e: int| 0 <= e < self.delegate_count() implies #[trigger] self.events(e) == pre.events(
            e,
        ) by {}
        assert forall|e: int, i: int|
            0 <= e < self.delegate_count() && 0 <= i < self.queue(e).len() implies self.job_live(
            #[trigger] self.queue(e)[i],
        ) by {
            if e != d || i < pre.queue(e).len() {
                assert(self.queue(e)[i] == pre.queue(e)[i]);
                assert(pre.job_live(pre.queue(e)[i]));
            }
        }
        assert forall|d1: int, i1: int, d2: int, i2: int|
            0 <= d1 < self.delegate_count() && 0 <= d2 < self.delegate_count() && 0 <= i1 < self.queue(
                d1,
            ).len() && 0 <= i2 < self.queue(d2).len() && (d1 != d2 || i1 != i2) implies #[trigger] self.queue(
            d1,
        )[i1].ctx != #[trigger] self.queue(d2)[i2].ctx by {
            let old1 = d1 != d || i1 < pre.queue(d1).len();
            let old2 = d2 != d || i2 < pre.queue(d2).len();
            if old1 {
                assert(self.queue(d1)[i1] == pre.queue(d1)[i1]);
                assert(pre.job_live(pre.queue(d1)[i1]));
            }
            if old2 {
                assert(self.queue(d2)[i2] == pre.queue(d2)[i2]);
                assert(pre.job_live(pre.queue(d2)[i2]));
            }
        }
        assert forall|g: usize| #[trigger] self.contexts().dom().contains(g) implies self.referenced(g) by {
            if g == h {
                assert(self.queue(d as int)[pre.queue(d as int).len() as int].ctx == g);
            } else {
                assert(pre.contexts().dom().contains(g));
                let (e, i) = choose|e: int, i: int|
                    0 <= e < pre.delegate_count() && 0 <= i < pre.queue(e).len()
                        && #[trigger] pre.queue(e)[i].ctx == g;
                assert(self.queue(e)[i].ctx == g);
            }
        }
    }

    /// Runs the next job on delegate `d`'s queue: reconstructs its command,
    /// freeing the slot, and returns the forwarding call that the command
    /// makes. `None` where the queue is empty.
    pub fn run_next(&mut self, d: usize) -> (r: Option<NativeCall>)
        requires
            old(self).wf(),
            d < old(self).delegate_count(),
        ensures
            final(self).wf(),
            r == old(self).next_call(d as int),
            r is Some <==> old(self).queue(d as int).len() > 0,
            old(self).queue(d as int).len() == 0 ==> *final(self) == *old(self),
            old(self).queue(d as int).len() > 0 ==> {
                &&& final(self).queue(d as int) == old(self).queue(d as int).drop_first()
                &&& final(self).contexts() == old(self).contexts().remove(old(self).queue(d as int)[0].ctx)
            },
            final(self).delegate_count() == old(self).delegate_count(),
            forall|e: int| 0 <= e < final(self).delegate_count() && e != d ==> #[trigger] final(self).queue(e) == old(self).queue(e),
            forall|e: int| 0 <= e < final(self).delegate_count() ==> #[trigger] final(self).events(e) == old(self).events(e),
    {
        let ghost pre = *self;
        if self.delegates[d].queue.len() == 0 {
            return None;
        }
        let mut del = self.delegates.remove(d);
        let job = match del.queue.pop_front() {
            Some(j) => j,
            None => {
                self.delegates.insert(d, del);
                assert(self.delegates@ =~= pre.delegates@);
                return None;
            }
        };
        self.delegates.insert(d, del);
        assert(self.delegates@ =~= pre.delegates@.update(d as int, del));
        assert(pre.job_live(pre.queue(d as int)[0]));
        let r = match self.contexts.take(job.ctx) {
            Some(p) => trampoline(job.op, p),
            None => None,
        };
        assert(self.queue(d as int) =~= pre.queue(d as int).drop_first());
        assert forall|e: int| 0 <= e < self.delegate_count() && e != d implies #[trigger] self.queue(e)
            == pre.queue(e) by {}
        assert forall|e: int| 0 <= e < self.delegate_count() implies #[trigger] self.events(e) == pre.events(
            e,
        ) by {}
        assert forall|e: int, i: int|
            0 <= e < self.delegate_count() && 0 <= i < self.queue(e).len() implies self.job_live(
            #[trigger] self.queue(e)[i],
        ) by {
            let k = if e == d { i + 1 } else { i };
            assert(self.queue(e)[i] == pre.queue(e)[k]);
            assert(pre.job_live(pre.queue(e)[k]));
            assert(pre.queue(e)[k].ctx != pre.queue(d as int)[0].ctx);
        }
        assert forall|d1: int, i1: int, d2: int, i2: int|
            0 <= d1 < self.delegate_count() && 0 <= d2 < self.delegate_count() && 0 <= i1 < self.queue(
                d1,
            ).len() && 0 <= i2 < self.queue(d2).len() && (d1 != d2 || i1 != i2) implies #[trigger] self.queue(
            d1,
        )[i1].ctx != #[trigger] self.queue(d2)[i2].ctx by {
            let k1 = if d1 == d { i1 + 1 } else { i1 };
            let k2 = if d2 == d { i2 + 1 } else { i2 };
            assert(self.queue(d1)[i1] == pre.queue(d1)[k1]);
            assert(self.queue(d2)[i2] == pre.queue(d2)[k2]);
        }
        assert forall|g: usize| #[trigger] self.contexts().dom().contains(g) implies self.referenced(g) by {
            assert(pre.contexts().dom().contains(g));
            let (e, i) = choose|e: int, i: int|
                0 <= e < pre.delegate_count() && 0 <= i < pre.queue(e).len()
                    && #[trigger] pre.queue(e)[i].ctx == g;
            if e == d {
                assert(i != 0);
                assert(self.queue(e)[i - 1].ctx == g);
            } else {
                assert(self.queue(e)[i].ctx == g);
            }
        }
        r
    }

    /// Delivers the answer to a lookup of peripherals to the sink that
    /// `reply` names, with the caller's tag. A lookup that found nothing
    /// answers with an empty list.
    pub fn complete_get_peripherals(
        &mut self,
        reply: Reply,
        with_services: bool,
        found: Option<Vec<ObjectRef>>,
    )
        requires
            old(self).wf(),
            reply.delegate < old(self).delegate_count(),
        ensures
            final(self).wf(),
            final(self).events(reply.delegate as int).len() == old(self).events(reply.delegate as int).len() + 1,
            final(self).events(reply.delegate as int).drop_last() == old(self).events(reply.delegate as int),
            is_peripherals_result(
                final(self).events(reply.delegate as int).last(),
                with_services,
                found_view(found),
                reply.tag,
            ),
            final(self).contexts() == old(self).contexts(),
            final(self).delegate_count() == old(self).delegate_count(),
            forall|e: int| 0 <= e < final(self).delegate_count() ==> #[trigger] final(self).queue(e) == old(self).queue(e),
            forall|e: int| 0 <= e < final(self).delegate_count() && e != reply.delegate ==> #[trigger] final(self).events(e) == old(self).events(e),
    {
        let peripherals = match found {
            Some(v) => v,
            None => Vec::new(),
        };
        let e = if with_services {
            CentralEvent::GetPeripheralsWithServicesResult { peripherals, tag: reply.tag }
        } else {
            CentralEvent::GetPeripheralsResult { peripherals, tag: reply.tag }
        };
        self.send(reply.delegate, e);
    }

    /// Delivers a peripheral's maximum write lengths to the sink that `reply`
    /// names, with the caller's tag.
    pub fn complete_max_write_len(
        &mut self,
        reply: Reply,
        with_response: usize,
        without_response: usize,
    )
        requires
            old(self).wf(),
            reply.delegate < old(self).delegate_count(),
        ensures
            final(self).wf(),
            final(self).events(reply.delegate as int) == old(self).events(reply.delegate as int).push(
                CentralEvent::GetMaxWriteLenResult {
                    max_write_len: MaxWriteLen { with_response, without_response },
                    tag: reply.tag,
                },
            ),
            final(self).contexts() == old(self).contexts(),
            final(self).delegate_count() == old(self).delegate_count(),
            forall|e: int| 0 <= e < final(self).delegate_count() ==> #[trigger] final(self).queue(e) == old(self).queue(e),
            forall|e: int| 0 <= e < final(self).delegate_count() && e != reply.delegate ==> #[trigger] final(self).events(e) == old(self).events(e),
    {
        let max_write_len = MaxWriteLen { with_response, without_response };
        self.send(reply.delegate, CentralEvent::GetMaxWriteLenResult { max_write_len, tag: reply.tag });
    }

    /// Appends `e` to delegate `d`'s event sink.
    pub fn send(&mut self, d: usize, e: CentralEvent)
        requires
            old(self).wf(),
            d < old(self).delegate_count(),
        ensures
            final(self).wf(),
            final(self).events(d as int) == old(self).events(d as int).push(e),
            final(self).contexts() == old(self).contexts(),
            final(self).delegate_count() == old(self).delegate_count(),
            forall|f: int| 0 <= f < final(self).delegate_count() ==> #[trigger] final(self).queue(f) == old(self).queue(f),
            forall|f: int| 0 <= f < final(self).delegate_count() && f != d ==> #[trigger] final(self).events(f) == old(self).events(f),
    {
        let ghost pre = *self;
        let mut del = self.delegates.remove(d);
        del.events.push(e);
        self.delegates.insert(d, del);
        assert(self.delegates@ =~= pre.delegates@.update(d as int, del));
        assert forall|f: int| 0 <= f < self.delegate_count() implies #[trigger] self.queue(f) == pre.queue(f) by {}
        assert forall|f: int| 0 <= f < self.delegate_count() && f != d implies #[trigger] self.events(f) == pre.events(f) by {}
        assert forall|g: usize| #[trigger] self.contexts().dom().contains(g) implies self.referenced(g) by {
            assert(pre.contexts().dom().contains(g));
            let (e, i) = choose|e: int, i: int|
                0 <= e < pre.delegate_count() && 0 <= i < pre.queue(e).len()
                    && #[trigger] pre.queue(e)[i].ctx == g;
            assert(self.queue(e) == pre.queue(e));
            assert(self.queue(e)[i].ctx == g);
        }
    }

    /// Takes every event out of delegate `d`'s sink, oldest first.
    pub fn take_events(&mut self, d: usize) -> (r: Vec<CentralEvent>)
        requires
            old(self).wf(),
            d < old(self).delegate_count(),
        ensures
            final(self).wf(),
            r@ == old(self).events(d as int),
            final(self).events(d as int) == Seq::<CentralEvent>::empty(),
            final(self).contexts() == old(self).contexts(),
            final(self).delegate_count() == old(self).delegate_count(),
            forall|f: int| 0 <= f < final(self).delegate_count() ==> #[trigger] final(self).queue(f) == old(self).queue(f),
            forall|f: int| 0 <= f < final(self).delegate_count() && f != d ==> #[trigger] final(self).events(f) == old(self).events(f),
    {
        let ghost pre = *self;
        let del = self.delegates.remove(d);
        let Delegate { queue, events } = del;
        let fresh = Delegate { queue, events: Vec::new() };
        self.delegates.insert(d, fresh);
        assert(self.delegates@ =~= pre.delegates@.update(d as int, fresh));
        assert forall|f: int| 0 <= f < self.delegate_count() implies #[trigger] self.queue(f) == pre.queue(f) by {}
        assert forall|f: int| 0 <= f < self.delegate_count() && f != d implies #[trigger] self.events(f) == pre.events(f) by {}
        assert forall|g: usize| #[trigger] self.contexts().dom().contains(g) implies self.referenced(g) by {
            assert(pre.contexts().dom().contains(g));
            let (e, i) = choose|e: int, i: int|
                0 <= e < pre.delegate_count() && 0 <= i < pre.queue(e).len()
                    && #[trigger] pre.queue(e)[i].ctx == g;
            assert(self.queue(e) == pre.queue(e));
            assert(self.queue(e)[i].ctx == g);
        }
        events
    }
}

/// Where the result of a call is to be delivered, for the calls that have one.
pub open spec fn reply_of(call: Option<NativeCall>) -> Option<Reply> {
    match call {
        Some(NativeCall::GetPeripherals { reply, .. }) => Some(reply),
        Some(NativeCall::GetPeripheralsWithServices { reply, .. }) => Some(reply),
        Some(NativeCall::MaxWriteLen { reply, .. }) => Some(reply),
        _ => None,
    }
}

/// A command dispatched to a target whose queue was empty is the one job
/// there: the next run on that target makes exactly the command's call, and
/// afterwards its slot is free again and the table is as before.
pub proof fn lemma_dispatch_then_run(pre: Dispatcher, mid: Dispatcher, d: int, op: Op, p: Payload)
    requires
        pre.wf(),
        0 <= d < pre.delegate_count(),
        pre.queue(d).len() == 0,
        mid.dispatched(pre, d, op, p),
    ensures
        mid.queue(d).len() == 1,
        mid.queue(d)[0].op == op,
        mid.next_call(d) == forward(op, p),
        mid.contexts().remove(mid.queue(d)[0].ctx) == pre.contexts(),
{
    let h = choose|h: usize|
        !pre.contexts().dom().contains(h) && mid.contexts() == pre.contexts().insert(h, p)
            && #[trigger] mid.queue(d) == pre.queue(d).push(Job { op, ctx: h });
    assert(mid.queue(d)[0] == Job { op, ctx: h });
    assert(mid.contexts().remove(h) =~= pre.contexts());
}

/// A lookup of peripherals names its manager's sink and carries its tag
/// unchanged into the call, and the event that answers it carries that tag.
pub proof fn lemma_lookup_tag_echoed(
    c: GetPeripherals,
    with_services: bool,
    found: Seq<ObjectRef>,
    e: CentralEvent,
)
    requires
        is_peripherals_result(e, with_services, found, c.tag),
    ensures
        reply_of(forward(Op::GetPeripherals, c.erased())) == Some(
            Reply { delegate: c.manager.delegate, tag: c.tag },
        ),
        reply_of(forward(Op::GetPeripheralsWithServices, c.erased())) == Some(
            Reply { delegate: c.manager.delegate, tag: c.tag },
        ),
        e.tag() == c.tag,
{
}

/// A query of maximum write lengths names its peripheral's sink and carries
/// its tag unchanged into the call, and the event that answers it carries
/// that tag.
pub proof fn lemma_max_write_len_tag_echoed(c: PeripheralTag, max_write_len: MaxWriteLen)
    ensures
        reply_of(forward(Op::GetMaxWriteLen, c.erased())) == Some(
            Reply { delegate: c.peripheral.delegate, tag: c.tag },
        ),
        (CentralEvent::GetMaxWriteLenResult { max_write_len, tag: c.tag }).tag() == c.tag,
{
}

/// Commands dispatched one after another to one target wait on its queue in
/// the order of dispatch, behind what waited there before, each with its own
/// command in its slot.
pub proof fn lemma_fifo(states: Seq<Dispatcher>, d: int, ops: Seq<Op>, payloads: Seq<Payload>)
    requires
        states.len() == ops.len() + 1,
        payloads.len() == ops.len(),
        states[0].wf(),
        0 <= d < states[0].delegate_count(),
        forall|k: int|
            0 <= k < ops.len() ==> #[trigger] states[k + 1].dispatched(states[k], d, ops[k], payloads[k]),
    ensures
        ({
            let first = states[0];
            let last = states[ops.len() as int];
            &&& last.queue(d).len() == first.queue(d).len() + ops.len()
            &&& last.queue(d).subrange(0, first.queue(d).len() as int) == first.queue(d)
            &&& forall|k: int|
                0 <= k < ops.len() ==> {
                    let j = #[trigger] last.queue(d)[first.queue(d).len() + k];
                    &&& j.op == ops[k]
                    &&& last.contexts().dom().contains(j.ctx)
                    &&& last.contexts()[j.ctx] == payloads[k]
                }
        }),
    decreases ops.len(),
{
    let n = ops.len() as int;
    if n > 0 {
        let m = n - 1;
        lemma_fifo(states.subrange(0, n), d, ops.subrange(0, m), payloads.subrange(0, m));
        assert forall|k: int| 0 <= k < m implies #[trigger] states.subrange(0, n)[k + 1].dispatched(
            states.subrange(0, n)[k],
            d,
            ops.subrange(0, m)[k],
            payloads.subrange(0, m)[k],
        ) by {
            assert(states[k + 1].dispatched(states[k], d, ops[k], payloads[k]));
        }
        let first = states[0];
        let prev = states[m];
        let last = states[n];
        assert(last.dispatched(prev, d, ops[m], payloads[m]));
        let h = choose|h: usize|
            !prev.contexts().dom().contains(h) && last.contexts() == prev.contexts().insert(h, payloads[m])
                && #[trigger] last.queue(d) == prev.queue(d).push(Job { op: ops[m], ctx: h });
        let base = first.queue(d).len() as int;
        assert(last.queue(d).subrange(0, base) =~= first.queue(d)) by {
            assert forall|i: int| 0 <= i < base implies last.queue(d)[i] == first.queue(d)[i] by {
                assert(prev.queue(d).subrange(0, base)[i] == first.queue(d)[i]);
            }
        }
        assert forall|k: int| 0 <= k < n implies {
            let j = #[trigger] last.queue(d)[base + k];
            &&& j.op == ops[k]
            &&& last.contexts().dom().contains(j.ctx)
            &&& last.contexts()[j.ctx] == payloads[k]
        } by {
            if k < m {
                let j = prev.queue(d)[base + k];
                assert(ops.subrange(0, m)[k] == ops[k]);
                assert(payloads.subrange(0, m)[k] == payloads[k]);
                assert(last.queue(d)[base + k] == j);
                assert(j.ctx != h);
            }
        }
    }
}

/// Dispatching to one target leaves every other target's queue, and the
/// call its next job makes, as they were: targets do not wait on each other.
pub proof fn lemma_targets_independent(pre: Dispatcher, mid: Dispatcher, d: int, other: int, op: Op, p: Payload)
    requires
        pre.wf(),
        0 <= d < pre.delegate_count(),
        0 <= other < pre.delegate_count(),
        d != other,
        mid.dispatched(pre, d, op, p),
    ensures
        mid.queue(other) == pre.queue(other),
        mid.next_call(other) == pre.next_call(other),
{
    let h = choose|h: usize|
        !pre.contexts().dom().contains(h) && mid.contexts() == pre.contexts().insert(h, p)
            && #[trigger] mid.queue(d) == pre.queue(d).push(Job { op, ctx: h });
    if pre.queue(other).len() > 0 {
        assert(pre.job_live(pre.queue(other)[0]));
    }
}

} // verus!
