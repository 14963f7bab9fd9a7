//! The MPS INTI flags of MADT entries: interrupt polarity and trigger mode.
//! Ref: ACPI 6.6 Section 5.2.12.5
use vstd::prelude::*;

verus! {

#[derive(Debug, Clone, Copy, PartialEq, Eq, Structural)]
pub enum InterruptPolarity {
    BusSpec,
    ActiveHigh,
    Reserved,
    ActiveLow,
}

#[derive(Debug, Clone, Copy, PartialEq, Eq, Structural)]
pub enum InterruptTrigger {
    BusSpec,
    Edge,
    Reserved,
    Level,
}

/// The polarity encoded by a 2-bit field value.
pub open spec fn polarity_of(bits: int) -> InterruptPolarity {
    if bits == 0 {
        InterruptPolarity::BusSpec
    } else if bits == 1 {
        InterruptPolarity::ActiveHigh
    } else if bits == 2 {
        InterruptPolarity::Reserved
    } else {
        InterruptPolarity::ActiveLow
    }
}

/// The trigger mode encoded by a 2-bit field value.
pub open spec fn trigger_of(bits: int) -> InterruptTrigger {
    if bits == 0 {
        InterruptTrigger::BusSpec
    } else if bits == 1 {
        InterruptTrigger::Edge
    } else if bits == 2 {
        InterruptTrigger::Reserved
    } else {
        InterruptTrigger::Level
    }
}

/// The flags field of the MADT entries that specify interrupt polarity (bits 0-1) and trigger
/// mode (bits 2-3).
#[derive(Debug, Clone, Copy, PartialEq, Eq)]
pub struct InterruptFlags(pub u16);

impl InterruptFlags {
    /// The polarity field, bits 0-1.
    pub open spec fn polarity_spec(self) -> InterruptPolarity {
        polarity_of((self.0 % 4) as int)
    }

    /// The trigger mode field, bits 2-3.
    pub open spec fn trigger_spec(self) -> InterruptTrigger {
        trigger_of(((self.0 / 4) % 4) as int)
    }

    pub fn polarity(&self) -> (r: InterruptPolarity)
        ensures
            r == self.polarity_spec(),
    {
        let v = self.0;
        let bits = v & 0b11;
        assert(bits == v % 4) by (bit_vector)
            requires
                bits == v & 3u16,
        ;
        if bits == 0 {
            InterruptPolarity::BusSpec
        } else if bits == 1 {
            InterruptPolarity::ActiveHigh
        } else if bits == 2 {
            InterruptPolarity::Reserved
        } else {
            InterruptPolarity::ActiveLow
        }
    }

    pub fn trigger(&self) -> (r: InterruptTrigger)
        ensures
            r == self.trigger_spec(),
    {
        let v = self.0;
        let bits = (v >> 2) & 0b11;
        assert(bits == (v / 4) % 4) by (bit_vector)
            requires
                bits == (v >> 2u16) & 3u16,
        ;
        if bits == 0 {
            InterruptTrigger::BusSpec
        } else if bits == 1 {
            InterruptTrigger::Edge
        } else if bits == 2 {
            InterruptTrigger::Reserved
        } else {
            InterruptTrigger::Level
        }
    }
}

} // verus!
