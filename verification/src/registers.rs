//! Bit layouts of the FIFO control/status, filter and nominal bit-time
//! registers. Fields follow the chip's MSB-first convention.

use vstd::prelude::*;

verus! {

/// Fourth byte of a FIFO control register: payload size in the top three
/// bits, FIFO size minus one in the low five bits.
#[derive(Copy, Clone, Debug, PartialEq, Eq, Structural)]
pub struct FifoControlReg3 {
    pub bits: u8,
}

impl FifoControlReg3 {
    pub fn new() -> (r: Self)
        ensures
            r.bits == 0,
    {
        FifoControlReg3 { bits: 0 }
    }

    /// Sets the payload size bits.
    pub fn with_plsize(self, value: u8) -> (r: Self)
        requires
            value <= 7,
        ensures
            r.bits == (self.bits & 0x1F) | (value << 5),
    {
        FifoControlReg3 { bits: (self.bits & 0x1F) | (value << 5) }
    }

    /// Gets the payload size bits.
    pub fn plsize(&self) -> (r: u8)
        ensures
            r == self.bits >> 5,
    {
        self.bits >> 5
    }

    /// Sets the FIFO size (number of messages, clamped to 1 - 32).
    pub fn with_fifo_size(self, value: u8) -> (r: Self)
        ensures
            r.bits == (self.bits & 0xE0) | (crate::config::spec_limit_size(value) - 1) as u8,
    {
        let size = crate::config::FifoConfiguration::limit_size(value);
        FifoControlReg3 { bits: (self.bits & 0xE0) | (size - 1) }
    }

    /// Gets the FIFO size (number of messages).
    pub fn fifo_size(&self) -> (r: u8)
        ensures
            r == (self.bits & 0x1F) + 1,
    {
        let b = self.bits;
        assert((b & 0x1F) < 0x20) by (bit_vector);
        (b & 0x1F) + 1
    }

    pub fn into_bytes(self) -> (r: [u8; 1])
        ensures
            r@ == seq![self.bits],
    {
        let r = [self.bits];
        proof {
            assert(r@ =~= seq![self.bits]);
        }
        r
    }
}

/// Third byte of a FIFO control register: retransmission attempts in bits
/// five and six, transmit priority in the low five bits.
#[derive(Copy, Clone, Debug, PartialEq, Eq, Structural)]
pub struct FifoControlReg2 {
    pub bits: u8,
}

impl FifoControlReg2 {
    pub fn new() -> (r: Self)
        ensures
            r.bits == 0,
    {
        FifoControlReg2 { bits: 0 }
    }

    /// Sets the retransmission attempts bits.
    pub fn with_txat(self, value: u8) -> (r: Self)
        requires
            value <= 3,
        ensures
            r.bits == (self.bits & 0x9F) | (value << 5),
    {
        FifoControlReg2 { bits: (self.bits & 0x9F) | (value << 5) }
    }

    /// Gets the retransmission attempts bits.
    pub fn txat(&self) -> (r: u8)
        ensures
            r == (self.bits >> 5) & 0x03,
    {
        (self.bits >> 5) & 0x03
    }

    /// Sets the message transmit priority bits.
    pub fn with_txpri(self, value: u8) -> (r: Self)
        requires
            value <= 31,
        ensures
            r.bits == (self.bits & 0xE0) | value,
    {
        FifoControlReg2 { bits: (self.bits & 0xE0) | value }
    }

    /// Gets the message transmit priority bits.
    pub fn txpri(&self) -> (r: u8)
        ensures
            r == self.bits & 0x1F,
    {
        self.bits & 0x1F
    }

    pub fn into_bytes(self) -> (r: [u8; 1])
        ensures
            r@ == seq![self.bits],
    {
        let r = [self.bits];
        proof {
            assert(r@ =~= seq![self.bits]);
        }
        r
    }
}

/// Second byte of a FIFO control register: FIFO reset in bit two, message
/// send request in bit one, head/tail increment in bit zero.
#[derive(Copy, Clone, Debug, PartialEq, Eq, Structural)]
pub struct FifoControlReg1 {
    pub bits: u8,
}

impl FifoControlReg1 {
    pub fn new() -> (r: Self)
        ensures
            r.bits == 0,
    {
        FifoControlReg1 { bits: 0 }
    }

    /// Builds the register from its raw byte.
    pub fn from_byte(byte: u8) -> (r: Self)
        ensures
            r.bits == byte,
    {
        FifoControlReg1 { bits: byte }
    }

    /// FIFO reset bit.
    pub fn freset(&self) -> (r: bool)
        ensures
            r == (self.bits & 0x04 != 0),
    {
        self.bits & 0x04 != 0
    }

    /// Message send request bit.
    pub fn txreq(&self) -> (r: bool)
        ensures
            r == (self.bits & 0x02 != 0),
    {
        self.bits & 0x02 != 0
    }

    /// Sets the message send request bit.
    pub fn with_txreq(self, value: bool) -> (r: Self)
        ensures
            r.bits == if value {
                self.bits | 0x02
            } else {
                self.bits & 0xFD
            },
    {
        if value {
            FifoControlReg1 { bits: self.bits | 0x02 }
        } else {
            FifoControlReg1 { bits: self.bits & 0xFD }
        }
    }

    /// Increment FIFO head/tail bit.
    pub fn uinc(&self) -> (r: bool)
        ensures
            r == (self.bits & 0x01 != 0),
    {
        self.bits & 0x01 != 0
    }

    /// Sets the increment FIFO head/tail bit.
    pub fn with_uinc(self, value: bool) -> (r: Self)
        ensures
            r.bits == if value {
                self.bits | 0x01
            } else {
                self.bits & 0xFE
            },
    {
        if value {
            FifoControlReg1 { bits: self.bits | 0x01 }
        } else {
            FifoControlReg1 { bits: self.bits & 0xFE }
        }
    }

    pub fn into_bytes(self) -> (r: [u8; 1])
        ensures
            r@ == seq![self.bits],
    {
        let r = [self.bits];
        proof {
            assert(r@ =~= seq![self.bits]);
        }
        r
    }
}

/// First byte of a FIFO control register: TX/RX selection in bit seven,
/// interrupt enables in the lower bits.
#[derive(Copy, Clone, Debug, PartialEq, Eq, Structural)]
pub struct FifoControlReg0 {
    pub bits: u8,
}

impl FifoControlReg0 {
    pub fn new() -> (r: Self)
        ensures
            r.bits == 0,
    {
        FifoControlReg0 { bits: 0 }
    }

    /// TX/RX FIFO selection bit.
    pub fn txen(&self) -> (r: bool)
        ensures
            r == (self.bits & 0x80 != 0),
    {
        self.bits & 0x80 != 0
    }

    /// Sets the TX/RX FIFO selection bit.
    pub fn with_txen(self, value: bool) -> (r: Self)
        ensures
            r.bits == if value {
                self.bits | 0x80
            } else {
                self.bits & 0x7F
            },
    {
        if value {
            FifoControlReg0 { bits: self.bits | 0x80 }
        } else {
            FifoControlReg0 { bits: self.bits & 0x7F }
        }
    }

    /// Transmit/receive FIFO not-full/not-empty interrupt enable bit.
    pub fn tfnrfnie(&self) -> (r: bool)
        ensures
            r == (self.bits & 0x01 != 0),
    {
        self.bits & 0x01 != 0
    }

    pub fn into_bytes(self) -> (r: [u8; 1])
        ensures
            r@ == seq![self.bits],
    {
        let r = [self.bits];
        proof {
            assert(r@ =~= seq![self.bits]);
        }
        r
    }
}

/// Second byte of a FIFO status register: message index in the low five bits.
#[derive(Copy, Clone, Debug, PartialEq, Eq, Structural)]
pub struct FifoStatusReg1 {
    pub bits: u8,
}

impl FifoStatusReg1 {
    pub fn from_byte(byte: u8) -> (r: Self)
        ensures
            r.bits == byte,
    {
        FifoStatusReg1 { bits: byte }
    }

    /// FIFO message index bits.
    pub fn fifoci(&self) -> (r: u8)
        ensures
            r == self.bits & 0x1F,
    {
        self.bits & 0x1F
    }
}

/// First byte of a FIFO status register: transmit fault flags in the upper
/// bits, the not-full/not-empty flag in bit zero.
#[derive(Copy, Clone, Debug, PartialEq, Eq, Structural)]
pub struct FifoStatusReg0 {
    pub bits: u8,
}

impl FifoStatusReg0 {
    pub fn new() -> (r: Self)
        ensures
            r.bits == 0,
    {
        FifoStatusReg0 { bits: 0 }
    }

    /// Builds the register from its raw byte.
    pub fn from_byte(byte: u8) -> (r: Self)
        ensures
            r.bits == byte,
    {
        FifoStatusReg0 { bits: byte }
    }

    /// Transmit/receive FIFO not-full/not-empty interrupt flag bit.
    pub fn tfnrfnif(&self) -> (r: bool)
        ensures
            r == (self.bits & 0x01 != 0),
    {
        self.bits & 0x01 != 0
    }

    /// Sets the transmit/receive FIFO not-full/not-empty interrupt flag bit.
    pub fn with_tfnrfnif(self, value: bool) -> (r: Self)
        ensures
            r.bits == if value {
                self.bits | 0x01
            } else {
                self.bits & 0xFE
            },
    {
        if value {
            FifoStatusReg0 { bits: self.bits | 0x01 }
        } else {
            FifoStatusReg0 { bits: self.bits & 0xFE }
        }
    }

    pub fn into_bytes(self) -> (r: [u8; 1])
        ensures
            r@ == seq![self.bits],
    {
        let r = [self.bits];
        proof {
            assert(r@ =~= seq![self.bits]);
        }
        r
    }
}

/// Filter mask register: identifier-receive mode in bit thirty, standard ID
/// mask extension in bit twenty-nine, extended ID mask in bits eleven to
/// twenty-eight, standard ID mask in the low eleven bits.
#[derive(Copy, Clone, Debug, PartialEq, Eq, Structural)]
pub struct FilterMaskReg {
    /// Identifier receive mode bit: if set, the ID kind (standard or
    /// extended) must match the filter's EXIDE bit; if clear, either matches.
    pub mide: bool,
    /// Standard ID mask extension bit
    pub msid11: bool,
    /// Extended ID mask bits (eighteen bits)
    pub meid: u32,
    /// Standard ID mask bits (eleven bits)
    pub msid: u16,
}

impl FilterMaskReg {
    /// All mask fields are within their bit widths.
    pub open spec fn wf(self) -> bool {
        self.meid <= 0x3FFFF && self.msid <= 0x7FF
    }

    /// The packed 32-bit register word.
    pub open spec fn spec_as_u32(self) -> u32 {
        ((if self.mide {
            1u32
        } else {
            0u32
        }) << 30) | ((if self.msid11 {
            1u32
        } else {
            0u32
        }) << 29) | (self.meid << 11) | (self.msid as u32)
    }

    pub fn new() -> (r: Self)
        ensures
            r == (FilterMaskReg { mide: false, msid11: false, meid: 0, msid: 0 }),
    {
        FilterMaskReg { mide: false, msid11: false, meid: 0, msid: 0 }
    }

    /// Sets the identifier receive mode bit.
    pub fn set_mide(&mut self, value: bool)
        ensures
            *final(self) == (FilterMaskReg { mide: value, ..*old(self) }),
    {
        self.mide = value;
    }

    /// Sets the extended ID mask bits.
    pub fn set_meid(&mut self, value: u32)
        requires
            value <= 0x3FFFF,
        ensures
            *final(self) == (FilterMaskReg { meid: value, ..*old(self) }),
    {
        self.meid = value;
    }

    /// Sets the standard ID mask bits.
    pub fn set_msid(&mut self, value: u16)
        requires
            value <= 0x7FF,
        ensures
            *final(self) == (FilterMaskReg { msid: value, ..*old(self) }),
    {
        self.msid = value;
    }

    /// Packs the register into its 32-bit word.
    pub fn as_u32(&self) -> (r: u32)
        requires
            self.wf(),
        ensures
            r == self.spec_as_u32(),
    {
        let mide_bit: u32 = if self.mide {
            1
        } else {
            0
        };
        let msid11_bit: u32 = if self.msid11 {
            1
        } else {
            0
        };
        (mide_bit << 30) | (msid11_bit << 29) | (self.meid << 11) | (self.msid as u32)
    }
}

impl Default for FilterMaskReg {
    fn default() -> (r: Self)
        ensures
            r == (FilterMaskReg { mide: false, msid11: false, meid: 0, msid: 0 }),
    {
        FilterMaskReg { mide: false, msid11: false, meid: 0, msid: 0 }
    }
}

/// Filter object register: extended ID enable in bit thirty, standard ID
/// extension in bit twenty-nine, extended ID in bits eleven to twenty-eight,
/// standard ID in the low eleven bits.
#[derive(Copy, Clone, Debug, PartialEq, Eq, Structural)]
pub struct FilterObjectReg {
    /// Extended ID enable bit: together with MIDE set, setting this bit
    /// matches extended IDs only, clearing it matches standard IDs only.
    pub exide: bool,
    /// Standard ID extension bit
    pub sid11: bool,
    /// Extended ID filter bits (eighteen bits)
    pub eid: u32,
    /// Standard ID filter bits (eleven bits)
    pub sid: u16,
}

impl FilterObjectReg {
    /// All filter fields are within their bit widths.
    pub open spec fn wf(self) -> bool {
        self.eid <= 0x3FFFF && self.sid <= 0x7FF
    }

    /// The packed 32-bit register word.
    pub open spec fn spec_as_u32(self) -> u32 {
        ((if self.exide {
            1u32
        } else {
            0u32
        }) << 30) | ((if self.sid11 {
            1u32
        } else {
            0u32
        }) << 29) | (self.eid << 11) | (self.sid as u32)
    }

    pub fn new() -> (r: Self)
        ensures
            r == (FilterObjectReg { exide: false, sid11: false, eid: 0, sid: 0 }),
    {
        FilterObjectReg { exide: false, sid11: false, eid: 0, sid: 0 }
    }

    /// Sets the extended ID enable bit.
    pub fn set_exide(&mut self, value: bool)
        ensures
            *final(self) == (FilterObjectReg { exide: value, ..*old(self) }),
    {
        self.exide = value;
    }

    /// Sets the extended ID filter bits.
    pub fn set_eid(&mut self, value: u32)
        requires
            value <= 0x3FFFF,
        ensures
            *final(self) == (FilterObjectReg { eid: value, ..*old(self) }),
    {
        self.eid = value;
    }

    /// Sets the standard ID filter bits.
    pub fn set_sid(&mut self, value: u16)
        requires
            value <= 0x7FF,
        ensures
            *final(self) == (FilterObjectReg { sid: value, ..*old(self) }),
    {
        self.sid = value;
    }

    /// Packs the register into its 32-bit word.
    pub fn as_u32(&self) -> (r: u32)
        requires
            self.wf(),
        ensures
            r == self.spec_as_u32(),
    {
        let exide_bit: u32 = if self.exide {
            1
        } else {
            0
        };
        let sid11_bit: u32 = if self.sid11 {
            1
        } else {
            0
        };
        (exide_bit << 30) | (sid11_bit << 29) | (self.eid << 11) | (self.sid as u32)
    }
}

impl Default for FilterObjectReg {
    fn default() -> (r: Self)
        ensures
            r == (FilterObjectReg { exide: false, sid11: false, eid: 0, sid: 0 }),
    {
        FilterObjectReg { exide: false, sid11: false, eid: 0, sid: 0 }
    }
}

/// Nominal bit time configuration register: baud rate prescaler in the top
/// byte, time segment one in the next byte, time segment two in bits eight
/// to fourteen, synchronization jump width in the low seven bits.
#[derive(Copy, Clone, Debug, PartialEq, Eq, Structural)]
pub struct C1NBTCFG {
    /// Baud rate prescaler bits
    pub brp: u8,
    /// Time segment one bits (propagation segment plus phase segment one)
    pub tseg1: u8,
    /// Time segment two bits (phase segment two, seven bits)
    pub tseg2: u8,
    /// Synchronization jump width bits (seven bits)
    pub sjw: u8,
}

impl C1NBTCFG {
    /// The seven-bit fields are within their widths.
    pub open spec fn wf(self) -> bool {
        self.tseg2 <= 0x7F && self.sjw <= 0x7F
    }

    /// The packed 32-bit register word.
    pub open spec fn spec_as_u32(self) -> u32 {
        ((self.brp as u32) << 24) | ((self.tseg1 as u32) << 16) | ((self.tseg2 as u32) << 8) | (
        self.sjw as u32)
    }

    /// Builds the register from raw bytes `[BRP, TSEG1, TSEG2, SJW]`,
    /// dropping the reserved top bits of the seven-bit fields.
    pub fn from_bytes(values: [u8; 4]) -> (r: Self)
        ensures
            r.brp == values@[0],
            r.tseg1 == values@[1],
            r.tseg2 == values@[2] & 0x7F,
            r.sjw == values@[3] & 0x7F,
            r.wf(),
    {
        let tseg2 = values[2] & 0x7F;
        let sjw = values[3] & 0x7F;
        proof {
            let v2 = values@[2];
            let v3 = values@[3];
            assert((v2 & 0x7F) <= 0x7F && (v3 & 0x7F) <= 0x7F) by (bit_vector);
        }
        C1NBTCFG { brp: values[0], tseg1: values[1], tseg2, sjw }
    }

    /// Overwrites all four fields from raw bytes `[BRP, TSEG1, TSEG2, SJW]`.
    pub fn to_bytes(&mut self, values: [u8; 4])
        requires
            values@[2] <= 0x7F,
            values@[3] <= 0x7F,
        ensures
            final(self).brp == values@[0],
            final(self).tseg1 == values@[1],
            final(self).tseg2 == values@[2],
            final(self).sjw == values@[3],
    {
        self.brp = values[0];
        self.tseg1 = values[1];
        self.tseg2 = values[2];
        self.sjw = values[3];
    }

    /// Packs the register into its 32-bit word.
    pub fn as_u32(&self) -> (r: u32)
        requires
            self.wf(),
        ensures
            r == self.spec_as_u32(),
    {
        ((self.brp as u32) << 24) | ((self.tseg1 as u32) << 16) | ((self.tseg2 as u32) << 8) | (
        self.sjw as u32)
    }
}

impl Default for C1NBTCFG {
    fn default() -> (r: Self)
        ensures
            r == (C1NBTCFG { brp: 0, tseg1: 0, tseg2: 0, sjw: 0 }),
    {
        C1NBTCFG { brp: 0, tseg1: 0, tseg2: 0, sjw: 0 }
    }
}

} // verus!
