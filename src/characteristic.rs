use vstd::prelude::*;

use crate::command::ObjectRef;

verus! {

/// How a characteristic's value is written.
#[derive(Clone, Copy, Debug, PartialEq, Eq, Structural, Hash)]
#[non_exhaustive]
pub enum WriteKind {
    /// The peripheral acknowledges the write.
    WithResponse,
    /// The write is not acknowledged.
    WithoutResponse,
}

pub const BROADCAST: u32 = 0x01;
pub const READ: u32 = 0x02;
pub const WRITE_WITHOUT_RESPONSE: u32 = 0x04;
pub const WRITE: u32 = 0x08;
pub const NOTIFY: u32 = 0x10;
pub const INDICATE: u32 = 0x20;
pub const AUTHENTICATED_SIGNED_WRITES: u32 = 0x40;
pub const EXTENDED_PROPERTIES: u32 = 0x80;
pub const NOTIFY_ENCRYPTION_REQUIRED: u32 = 0x100;
pub const INDICATE_ENCRYPTION_REQUIRED: u32 = 0x200;

/// Every property bit that a characteristic can have.
pub const ALL_PROPERTIES: u32 = 0x3ff;

/// Whether `bits` holds the property `flag`.
pub open spec fn has_flag(bits: u32, flag: u32) -> bool {
    bits & flag == flag
}

/// Properties of a characteristic: a set of property bits, none outside
/// [`ALL_PROPERTIES`].
#[derive(Clone, Copy, Debug, PartialEq, Eq, Structural, Hash)]
pub struct Properties {
    bits: u32,
}

impl Properties {
    pub closed spec fn view(&self) -> u32 {
        self.bits
    }

    pub open spec fn wf(&self) -> bool {
        self@ & !ALL_PROPERTIES == 0
    }

    /// The properties among `bits`; bits that name no property are dropped.
    pub fn from_bits_truncate(bits: u32) -> (r: Self)
        ensures
            r@ == bits & ALL_PROPERTIES,
            r.wf(),
    {
        let r = Properties { bits: bits & ALL_PROPERTIES };
        assert((bits & 0x3ff) & !0x3ffu32 == 0) by (bit_vector);
        r
    }

    /// The property bits.
    pub fn bits(&self) -> (r: u32)
        ensures
            r == self@,
    {
        self.bits
    }

    /// Characteristic can broadcast its value using a characteristic configuration descriptor.
    pub fn can_broadcast(&self) -> (r: bool)
        ensures
            r == has_flag(self@, BROADCAST),
    {
        self.bits & BROADCAST == BROADCAST
    }

    /// A peripheral can read the characteristic's value.
    pub fn can_read(&self) -> (r: bool)
        ensures
            r == has_flag(self@, READ),
    {
        self.bits & READ == READ
    }

    /// A peripheral can write the characteristic's value, without a response to indicate that the write succeeded.
    pub fn can_write_without_response(&self) -> (r: bool)
        ensures
            r == has_flag(self@, WRITE_WITHOUT_RESPONSE),
    {
        self.bits & WRITE_WITHOUT_RESPONSE == WRITE_WITHOUT_RESPONSE
    }

    /// A peripheral can write the characteristic's value, with a response to indicate that the write succeeded.
    pub fn can_write(&self) -> (r: bool)
        ensures
            r == has_flag(self@, WRITE),
    {
        self.bits & WRITE == WRITE
    }

    /// The peripheral permits notifications of the characteristic's value, without a response from the central to indicate receipt of the notification.
    pub fn can_notify(&self) -> (r: bool)
        ensures
            r == has_flag(self@, NOTIFY),
    {
        self.bits & NOTIFY == NOTIFY
    }

    /// The peripheral permits notifications of the characteristic's value, with a response from the central to indicate receipt of the notification.
    pub fn can_indicate(&self) -> (r: bool)
        ensures
            r == has_flag(self@, INDICATE),
    {
        self.bits & INDICATE == INDICATE
    }

    /// The peripheral allows signed writes of the characteristic's value, without a response to indicate the write succeeded.
    pub fn supports_authenticated_signed_writes(&self) -> (r: bool)
        ensures
            r == has_flag(self@, AUTHENTICATED_SIGNED_WRITES),
    {
        self.bits & AUTHENTICATED_SIGNED_WRITES == AUTHENTICATED_SIGNED_WRITES
    }

    /// The characteristic defines additional properties in the extended properties descriptor.
    pub fn has_extended_properties(&self) -> (r: bool)
        ensures
            r == has_flag(self@, EXTENDED_PROPERTIES),
    {
        self.bits & EXTENDED_PROPERTIES == EXTENDED_PROPERTIES
    }

    /// Whether only trusted devices can enable notifications of the characteristic's value.
    pub fn is_notify_encryption_required(&self) -> (r: bool)
        ensures
            r == has_flag(self@, NOTIFY_ENCRYPTION_REQUIRED),
    {
        self.bits & NOTIFY_ENCRYPTION_REQUIRED == NOTIFY_ENCRYPTION_REQUIRED
    }

    /// Whether only trusted devices can enable indications of the characteristic's value.
    pub fn is_indicate_encryption_required(&self) -> (r: bool)
        ensures
            r == has_flag(self@, INDICATE_ENCRYPTION_REQUIRED),
    {
        self.bits & INDICATE_ENCRYPTION_REQUIRED == INDICATE_ENCRYPTION_REQUIRED
    }
}

/// A characteristic of a remote peripheral's service: its identifier, its
/// properties and the native object.
#[derive(Clone, Copy, Debug)]
pub struct Characteristic {
    id: u128,
    properties: Properties,
    pub(crate) characteristic: ObjectRef,
}

impl Characteristic {
    pub closed spec fn spec_id(&self) -> u128 {
        self.id
    }

    pub closed spec fn spec_properties(&self) -> Properties {
        self.properties
    }

    /// The native characteristic that this view describes.
    pub closed spec fn object(&self) -> ObjectRef {
        self.characteristic
    }

    /// Builds the view of a native characteristic from its identifier and
    /// its raw property bits.
    pub fn retain(id: u128, property_bits: u32, characteristic: ObjectRef) -> (r: Self)
        ensures
            r.spec_id() == id,
            r.spec_properties()@ == property_bits & ALL_PROPERTIES,
            r.spec_properties().wf(),
            r.object() == characteristic,
    {
        Characteristic { id, properties: Properties::from_bits_truncate(property_bits), characteristic }
    }

    pub fn id(&self) -> (r: u128)
        ensures
            r == self.spec_id(),
    {
        self.id
    }

    pub fn properties(&self) -> (r: &Properties)
        ensures
            *r == self.spec_properties(),
    {
        &self.properties
    }
}

} // verus!
