//! CAN frame identifiers: standard (eleven bits) or extended (twenty-nine
//! bits), held as plain values with their range invariants.

use vstd::prelude::*;

verus! {

/// A CAN identifier. A standard identifier has eleven bits, an extended
/// identifier has twenty-nine bits.
#[derive(Copy, Clone, Debug, PartialEq, Eq, Structural)]
pub enum Id {
    /// Standard identifier (eleven bits)
    Standard(u16),
    /// Extended identifier (twenty-nine bits)
    Extended(u32),
}

impl Id {
    /// The identifier is within its bit width.
    pub open spec fn wf(self) -> bool {
        match self {
            Id::Standard(raw) => raw <= 0x7FF,
            Id::Extended(raw) => raw <= 0x1FFF_FFFF,
        }
    }

    /// Builds a standard identifier; rejects values over eleven bits.
    pub fn new_standard(raw: u16) -> (r: Option<Id>)
        ensures
            raw <= 0x7FF ==> r == Some(Id::Standard(raw)),
            raw > 0x7FF ==> r is None,
            r matches Some(id) ==> id.wf(),
    {
        if raw <= 0x7FF {
            Some(Id::Standard(raw))
        } else {
            None
        }
    }

    /// Builds an extended identifier; rejects values over twenty-nine bits.
    pub fn new_extended(raw: u32) -> (r: Option<Id>)
        ensures
            raw <= 0x1FFF_FFFF ==> r == Some(Id::Extended(raw)),
            raw > 0x1FFF_FFFF ==> r is None,
            r matches Some(id) ==> id.wf(),
    {
        if raw <= 0x1FFF_FFFF {
            Some(Id::Extended(raw))
        } else {
            None
        }
    }
}

} // verus!
