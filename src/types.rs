use vstd::prelude::*;

verus! {

/// The four colours of the light. Any colour may follow any other.
#[derive(Clone, Copy, Debug, PartialEq, Eq, Structural, Hash)]
pub enum LightColor {
    Green,
    Yellow,
    Red,
    Orange,
}

/// An opaque caller address, handed in by the hosting environment.
#[derive(Clone, Copy, Debug, Eq, Hash)]
pub struct ActorId {
    pub bytes: [u8; 32],
}

impl ActorId {
    pub fn new(bytes: [u8; 32]) -> (r: ActorId)
        ensures
            r.bytes == bytes,
    {
        ActorId { bytes }
    }

    /// Byte-wise comparison of two addresses.
    pub fn same_as(&self, other: &ActorId) -> (r: bool)
        ensures
            r == (*self == *other),
    {
        let mut i: usize = 0;
        while i < 32
            invariant
                0 <= i <= 32,
                forall|j: int| 0 <= j < i ==> self.bytes@[j] == other.bytes@[j],
            decreases 32 - i,
        {
            if self.bytes[i] != other.bytes[i] {
                return false;
            }
            i = i + 1;
        }
        proof {
            assert(self.bytes@ =~= other.bytes@);
            assert(self.bytes == other.bytes);
        }
        true
    }
}

impl PartialEq for ActorId {
    fn eq(&self, other: &ActorId) -> (r: bool) {
        self.same_as(other)
    }
}

impl vstd::std_specs::cmp::PartialEqSpecImpl for ActorId {
    open spec fn obeys_eq_spec() -> bool {
        true
    }

    open spec fn eq_spec(&self, other: &ActorId) -> bool {
        *self == *other
    }
}

/// Why the alias registry turned a caller away.
#[derive(Clone, Copy, Debug, PartialEq, Eq, Structural)]
pub enum IdentityError {
    /// The alias was never registered.
    UnknownAlias,
    /// The alias is bound to another address.
    AddressMismatch,
    /// Any other refusal.
    Unknown,
}

/// What a transition reports back to its caller.
#[derive(Clone, Copy, Debug, PartialEq, Eq, Structural)]
pub enum TrafficLightEvent {
    Green,
    Yellow,
    Red,
    Orange,
    Error(IdentityError),
}

impl TrafficLightEvent {
    /// The success event of a transition to `color`.
    pub open spec fn spec_of_color(color: LightColor) -> TrafficLightEvent {
        match color {
            LightColor::Green => TrafficLightEvent::Green,
            LightColor::Yellow => TrafficLightEvent::Yellow,
            LightColor::Red => TrafficLightEvent::Red,
            LightColor::Orange => TrafficLightEvent::Orange,
        }
    }

    pub fn of_color(color: LightColor) -> (r: TrafficLightEvent)
        ensures
            r == Self::spec_of_color(color),
    {
        match color {
            LightColor::Green => TrafficLightEvent::Green,
            LightColor::Yellow => TrafficLightEvent::Yellow,
            LightColor::Red => TrafficLightEvent::Red,
            LightColor::Orange => TrafficLightEvent::Orange,
        }
    }
}

} // verus!
