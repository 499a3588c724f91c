//! Operation and oscillator status read back from the controller.

use vstd::prelude::*;

verus! {

/// Operation mode of the controller, as encoded in the upper three bits of
/// the third C1CON register byte. The on-wire encoding is given by
/// [`OperationMode::spec_bits`]; reserved values read back from the chip
/// fold into `RestrictedOperation`, never an error.
#[derive(Copy, Clone, Debug, PartialEq, Eq, Structural)]
pub enum OperationMode {
    /// Normal CAN FD mode, supports mixing CAN FD and classic CAN 2.0 frames
    NormalCANFD,
    /// Sleep mode
    Sleep,
    /// Internal loopback mode
    InternalLoopback,
    /// Listen-only mode
    ListenOnly,
    /// Configuration mode
    Configuration,
    /// External loopback mode
    ExternalLoopback,
    /// Normal CAN 2.0 mode, possible error frames on CAN FD frames
    NormalCAN2_0,
    /// Restricted operation mode
    RestrictedOperation,
}

impl OperationMode {
    /// Three-bit on-wire encoding of the mode.
    pub open spec fn spec_bits(self) -> u8 {
        match self {
            OperationMode::NormalCANFD => 0,
            OperationMode::Sleep => 1,
            OperationMode::InternalLoopback => 2,
            OperationMode::ListenOnly => 3,
            OperationMode::Configuration => 4,
            OperationMode::ExternalLoopback => 5,
            OperationMode::NormalCAN2_0 => 6,
            OperationMode::RestrictedOperation => 7,
        }
    }

    /// Mode encoded by the given three-bit value; values above seven do not
    /// occur (the argument is always a three-bit field).
    pub open spec fn spec_from_bits(bits: u8) -> OperationMode {
        if bits == 0 {
            OperationMode::NormalCANFD
        } else if bits == 1 {
            OperationMode::Sleep
        } else if bits == 2 {
            OperationMode::InternalLoopback
        } else if bits == 3 {
            OperationMode::ListenOnly
        } else if bits == 4 {
            OperationMode::Configuration
        } else if bits == 5 {
            OperationMode::ExternalLoopback
        } else if bits == 6 {
            OperationMode::NormalCAN2_0
        } else {
            OperationMode::RestrictedOperation
        }
    }

    /// Mode decoded from an operation status register byte: the mode lives
    /// in the top three bits.
    pub open spec fn spec_from_register(register: u8) -> OperationMode {
        OperationMode::spec_from_bits(register >> 5)
    }

    /// Three-bit on-wire encoding of the mode.
    pub fn bits(self) -> (r: u8)
        ensures
            r == self.spec_bits(),
    {
        match self {
            OperationMode::NormalCANFD => 0,
            OperationMode::Sleep => 1,
            OperationMode::InternalLoopback => 2,
            OperationMode::ListenOnly => 3,
            OperationMode::Configuration => 4,
            OperationMode::ExternalLoopback => 5,
            OperationMode::NormalCAN2_0 => 6,
            OperationMode::RestrictedOperation => 7,
        }
    }

    /// Decodes the mode from an operation status register byte.
    pub fn from_register(register: u8) -> (r: Self)
        ensures
            r == OperationMode::spec_from_register(register),
    {
        let bits = register >> 5;
        if bits == 0 {
            OperationMode::NormalCANFD
        } else if bits == 1 {
            OperationMode::Sleep
        } else if bits == 2 {
            OperationMode::InternalLoopback
        } else if bits == 3 {
            OperationMode::ListenOnly
        } else if bits == 4 {
            OperationMode::Configuration
        } else if bits == 5 {
            OperationMode::ExternalLoopback
        } else if bits == 6 {
            OperationMode::NormalCAN2_0
        } else {
            OperationMode::RestrictedOperation
        }
    }
}

/// Operation status decoded from the third C1CON register byte.
#[derive(Copy, Clone, Debug, PartialEq, Eq, Structural)]
pub struct OperationStatus {
    /// Current operation mode
    pub mode: OperationMode,
    /// True if TXQ is enabled and reserves space in RAM
    pub txq_reserved: bool,
    /// True if transmitted messages are stored in TEF and RAM space is reserved
    pub store_transmit_event: bool,
    /// True: transition to listen-only mode on system error;
    /// false: transition to restricted-operation mode on system error
    pub error_trans_listen_only_mode: bool,
    /// True: ESI is transmitted recessive when ESI of message is high or
    /// the CAN controller is error passive; false: ESI reflects the error
    /// status of the CAN controller
    pub transmit_esi_gateway: bool,
    /// True: restricted retransmission attempts, TXAT is used;
    /// false: unlimited retransmission attempts, TXAT is ignored
    pub restrict_retransmission: bool,
}

impl OperationStatus {
    /// Status encoded by a register byte.
    pub open spec fn spec_from_register(register: u8) -> OperationStatus {
        OperationStatus {
            mode: OperationMode::spec_from_register(register),
            txq_reserved: register & 0x10 != 0,
            store_transmit_event: register & 0x08 != 0,
            error_trans_listen_only_mode: register & 0x04 != 0,
            transmit_esi_gateway: register & 0x02 != 0,
            restrict_retransmission: register & 0x01 != 0,
        }
    }

    /// Decodes the full operation status from a register byte.
    pub fn from_register(register: u8) -> (r: Self)
        ensures
            r == OperationStatus::spec_from_register(register),
    {
        OperationStatus {
            mode: OperationMode::from_register(register),
            txq_reserved: register & 0x10 != 0,
            store_transmit_event: register & 0x08 != 0,
            error_trans_listen_only_mode: register & 0x04 != 0,
            transmit_esi_gateway: register & 0x02 != 0,
            restrict_retransmission: register & 0x01 != 0,
        }
    }
}

/// Oscillator status decoded from the second OSC register byte.
#[derive(Copy, Clone, Debug, PartialEq, Eq, Structural)]
pub struct OscillatorStatus {
    /// True if the divided system clock is ready
    pub sclk_ready: bool,
    /// True if the oscillator is ready
    pub clock_ready: bool,
    /// True if the PLL is locked
    pub pll_ready: bool,
}

impl OscillatorStatus {
    /// Status encoded by a register byte.
    pub open spec fn spec_from_register(register: u8) -> OscillatorStatus {
        OscillatorStatus {
            sclk_ready: register & 0x10 != 0,
            clock_ready: register & 0x04 != 0,
            pll_ready: register & 0x01 != 0,
        }
    }

    /// Decodes the oscillator status from a register byte.
    pub fn from_register(register: u8) -> (r: Self)
        ensures
            r == OscillatorStatus::spec_from_register(register),
    {
        OscillatorStatus {
            sclk_ready: register & 0x10 != 0,
            clock_ready: register & 0x04 != 0,
            pll_ready: register & 0x01 != 0,
        }
    }
}

} // verus!
