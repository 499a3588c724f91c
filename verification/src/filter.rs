//! CAN acceptance filters. The chip has thirty-two filter/mask register
//! pairs; a lower index means a higher priority. A received identifier
//! matches when, for every mask bit set, the corresponding identifier bit
//! equals the filter's; the mask's MIDE bit additionally forces the
//! identifier kind (standard or extended) to match the filter's EXIDE bit.

use crate::id::Id;
use crate::registers::{FilterMaskReg, FilterObjectReg};
use vstd::prelude::*;

verus! {

/// A filter object: the slot index, the filter register and the mask
/// register to program.
#[derive(Copy, Clone, Debug, PartialEq, Eq, Structural)]
pub struct Filter {
    /// Filter and mask slot index (zero through thirty-one)
    pub index: u8,
    /// Mask register bits
    pub mask_bits: FilterMaskReg,
    /// Filter register bits
    pub filter_bits: FilterObjectReg,
}

/// The filter-object fields an identifier sets: a standard identifier fills
/// the standard field; an extended identifier is split into the low
/// eighteen bits and the top eleven bits.
pub open spec fn spec_filter_of_id(identifier: Id) -> FilterObjectReg {
    match identifier {
        Id::Standard(sid) => FilterObjectReg { exide: false, sid11: false, eid: 0, sid },
        Id::Extended(eid) => FilterObjectReg {
            exide: false,
            sid11: false,
            eid: eid & 0x3FFFF,
            sid: ((eid >> 18) & 0x7FF) as u16,
        },
    }
}

impl Filter {
    /// The slot index and the register fields are in range.
    pub open spec fn wf(self) -> bool {
        self.index <= 31 && self.mask_bits.wf() && self.filter_bits.wf()
    }

    /// Creates a new filter for the given identifier and slot index, with
    /// an all-zero mask; slot indices above thirty-one are rejected.
    pub fn new(identifier: Id, index: u8) -> (r: Option<Filter>)
        requires
            identifier.wf(),
        ensures
            index > 31 ==> r is None,
            index <= 31 ==> r == Some(
                Filter {
                    index,
                    mask_bits: FilterMaskReg { mide: false, msid11: false, meid: 0, msid: 0 },
                    filter_bits: spec_filter_of_id(identifier),
                },
            ),
            r matches Some(f) ==> f.wf(),
    {
        if index > 31 {
            return None;
        }
        let mut filter = Filter {
            index,
            mask_bits: FilterMaskReg::new(),
            filter_bits: FilterObjectReg::new(),
        };
        filter.set_id(identifier);
        proof {
            match identifier {
                Id::Standard(_) => {},
                Id::Extended(e) => {
                    assert((e & 0x3FFFF) <= 0x3FFFF && ((e >> 18) & 0x7FF) <= 0x7FF) by (
                    bit_vector);
                },
            }
        }
        Some(filter)
    }

    /// Sets the mask from an extended identifier: the low eighteen bits
    /// mask the extended field, the top eleven the standard field.
    pub fn set_mask_extended_id(&mut self, mask: u32)
        requires
            mask <= 0x1FFF_FFFF,
        ensures
            *final(self) == (Filter {
                mask_bits: FilterMaskReg {
                    meid: mask & 0x3FFFF,
                    msid: ((mask >> 18) & 0x7FF) as u16,
                    ..old(self).mask_bits
                },
                ..*old(self)
            }),
    {
        proof {
            let m = mask;
            assert((m & 0x3FFFF) <= 0x3FFFF && ((m >> 18) & 0x7FF) <= 0x7FF) by (bit_vector);
        }
        let split_standard = ((mask >> 18) & 0x7FF) as u16;
        self.mask_bits.set_meid(mask & 0x3FFFF);
        self.mask_bits.set_msid(split_standard);
    }

    /// Sets the mask from a standard identifier.
    pub fn set_mask_standard_id(&mut self, mask: u16)
        requires
            mask <= 0x7FF,
        ensures
            *final(self) == (Filter {
                mask_bits: FilterMaskReg { msid: mask, ..old(self).mask_bits },
                ..*old(self)
            }),
    {
        self.mask_bits.set_msid(mask);
    }

    /// Arranges filter and mask so that only standard identifiers match.
    pub fn match_standard_only(&mut self)
        ensures
            *final(self) == (Filter {
                mask_bits: FilterMaskReg { mide: true, ..old(self).mask_bits },
                filter_bits: FilterObjectReg { exide: false, ..old(self).filter_bits },
                ..*old(self)
            }),
    {
        self.mask_bits.set_mide(true);
        self.filter_bits.set_exide(false);
    }

    /// Arranges filter and mask so that only extended identifiers match.
    pub fn match_extended_only(&mut self)
        ensures
            *final(self) == (Filter {
                mask_bits: FilterMaskReg { mide: true, ..old(self).mask_bits },
                filter_bits: FilterObjectReg { exide: true, ..old(self).filter_bits },
                ..*old(self)
            }),
    {
        self.mask_bits.set_mide(true);
        self.filter_bits.set_exide(true);
    }

    /// Sets the filter-object identifier fields from an identifier.
    fn set_id(&mut self, identifier: Id)
        requires
            identifier.wf(),
        ensures
            *final(self) == (match identifier {
                Id::Standard(sid) => Filter {
                    filter_bits: FilterObjectReg { sid, ..old(self).filter_bits },
                    ..*old(self)
                },
                Id::Extended(eid) => Filter {
                    filter_bits: FilterObjectReg {
                        eid: eid & 0x3FFFF,
                        sid: ((eid >> 18) & 0x7FF) as u16,
                        ..old(self).filter_bits
                    },
                    ..*old(self)
                },
            }),
    {
        match identifier {
            Id::Standard(sid) => {
                self.filter_bits.set_sid(sid);
            },
            Id::Extended(eid) => {
                proof {
                    let e = eid;
                    assert((e & 0x3FFFF) <= 0x3FFFF && ((e >> 18) & 0x7FF) <= 0x7FF) by (
                    bit_vector);
                }
                let split_standard = ((eid >> 18) & 0x7FF) as u16;
                self.filter_bits.set_eid(eid & 0x3FFFF);
                self.filter_bits.set_sid(split_standard);
            },
        }
    }
}

impl Default for Filter {
    fn default() -> (r: Self)
        ensures
            r == (Filter {
                index: 0,
                mask_bits: FilterMaskReg { mide: false, msid11: false, meid: 0, msid: 0 },
                filter_bits: FilterObjectReg { exide: false, sid11: false, eid: 0, sid: 0 },
            }),
    {
        Filter {
            index: 0,
            mask_bits: FilterMaskReg::new(),
            filter_bits: FilterObjectReg::new(),
        }
    }
}

} // verus!
