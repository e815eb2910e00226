//! Event data: an eight-byte instruction tag, the event's discriminator, then its fields.
use vstd::prelude::*;
use crate::codec::push_slice;

verus! {

/// The tag that starts every event's data, little-endian.
pub const EVENT_IX_TAG_LE: [u8; 8] = [0xe4, 0x45, 0xa5, 0x2e, 0x51, 0xcb, 0x9a, 0x1d];

/// Length of event discriminator bytes (the tag and the discriminator byte).
pub const EVENT_DISCRIMINATOR_LEN: usize = 9;

/// Event discriminator values for this program
#[derive(Clone, Copy, Debug, PartialEq, Eq, Structural)]
pub enum EventDiscriminators {
    Claimed,
    DistributionClosed,
    VestingDistributionCreated,
    VestingRecipientAdded,
}

impl EventDiscriminators {
    pub open spec fn spec_value(self) -> u8 {
        match self {
            EventDiscriminators::Claimed => 0,
            EventDiscriminators::DistributionClosed => 1,
            EventDiscriminators::VestingDistributionCreated => 2,
            EventDiscriminators::VestingRecipientAdded => 3,
        }
    }

    /// The discriminator byte of this event kind.
    pub fn value(&self) -> (r: u8)
        ensures
            r == self.spec_value(),
    {
        match self {
            EventDiscriminators::Claimed => 0,
            EventDiscriminators::DistributionClosed => 1,
            EventDiscriminators::VestingDistributionCreated => 2,
            EventDiscriminators::VestingRecipientAdded => 3,
        }
    }
}

/// Event discriminator with the instruction tag in front.
pub trait EventDiscriminator {
    /// Event discriminator byte
    const DISCRIMINATOR: u8;

    /// Full discriminator bytes: the tag, then the discriminator byte.
    fn discriminator_bytes() -> (r: Vec<u8>)
        ensures
            r@ == EVENT_IX_TAG_LE@.push(Self::DISCRIMINATOR),
    {
        let mut data: Vec<u8> = Vec::new();
        push_slice(&mut data, EVENT_IX_TAG_LE.as_slice());
        data.push(Self::DISCRIMINATOR);
        data
    }
}

/// Event serialization
pub trait EventSerialize: EventDiscriminator {
    /// The event's fields, as serialized.
    spec fn spec_inner(&self) -> Seq<u8>;

    /// Serialize event data (without discriminator)
    fn to_bytes_inner(&self) -> (r: Vec<u8>)
        ensures
            r@ == self.spec_inner(),
    ;

    /// Serialize with full discriminator prefix
    fn to_bytes(&self) -> (r: Vec<u8>)
        ensures
            r@ == EVENT_IX_TAG_LE@.push(Self::DISCRIMINATOR) + self.spec_inner(),
    {
        let mut data = Self::discriminator_bytes();
        let inner = self.to_bytes_inner();
        push_slice(&mut data, inner.as_slice());
        data
    }
}

} // verus!
