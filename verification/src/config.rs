//! Controller configuration: oscillator, FIFO, request-mode and bit-rate
//! settings, together with their register encodings.

use crate::status::OperationMode;
use vstd::prelude::*;

verus! {

/// Entire configuration currently supported.
#[derive(Copy, Clone, Debug)]
pub struct Configuration {
    /// Oscillator/Clock configuration
    pub clock: ClockConfiguration,
    /// TX/RX FIFO configuration
    pub fifo: FifoConfiguration,
    /// Target request/operation mode
    pub mode: RequestMode,
    /// Bit rate config
    pub bit_rate: BitRateConfig,
}

impl Default for Configuration {
    fn default() -> (r: Self)
        ensures
            r.clock == ClockConfiguration::spec_default(),
            r.fifo == FifoConfiguration::spec_default(),
            r.mode == RequestMode::NormalCANFD,
            r.bit_rate == BitRateConfig::spec_default(),
    {
        Configuration {
            clock: ClockConfiguration::default(),
            fifo: FifoConfiguration::default(),
            mode: RequestMode::default(),
            bit_rate: BitRateConfig::default(),
        }
    }
}

/// Oscillator/Clock configuration, one OSC register byte.
#[derive(Copy, Clone, Debug, PartialEq, Eq, Structural)]
pub struct ClockConfiguration {
    /// Divisor for clock output
    pub clock_output: ClockOutputDivisor,
    /// Divisor for system clock
    pub system_clock: SystemClockDivisor,
    /// Disable clock/oscillator?
    pub disable_clock: bool,
    /// PLL configuration
    pub pll: PLLSetting,
}

impl ClockConfiguration {
    pub open spec fn spec_default() -> ClockConfiguration {
        ClockConfiguration {
            clock_output: ClockOutputDivisor::DivideBy1,
            system_clock: SystemClockDivisor::DivideBy1,
            disable_clock: false,
            pll: PLLSetting::DirectXTALOscillator,
        }
    }

    /// Register byte encoding the configuration: clock-output divisor in the
    /// top two bits, system-clock divisor in bit four, clock-disable in bit
    /// two, PLL selection in bit zero.
    pub open spec fn spec_as_register(self) -> u8 {
        (self.clock_output.spec_bits() << 5) | (self.system_clock.spec_bits() << 4)
            | ((if self.disable_clock { 1u8 } else { 0u8 }) << 2) | self.pll.spec_bits()
    }

    /// Configuration encoded by a register byte.
    pub open spec fn spec_from_register(register: u8) -> ClockConfiguration {
        ClockConfiguration {
            clock_output: ClockOutputDivisor::spec_from_register(register),
            system_clock: SystemClockDivisor::spec_from_register(register),
            disable_clock: register & 0x04 != 0,
            pll: PLLSetting::spec_from_register(register),
        }
    }

    /// Maps a register byte to the configuration it encodes.
    pub fn from_register(register: u8) -> (r: Self)
        ensures
            r == ClockConfiguration::spec_from_register(register),
    {
        ClockConfiguration {
            clock_output: ClockOutputDivisor::from_register(register),
            system_clock: SystemClockDivisor::from_register(register),
            disable_clock: register & 0x04 != 0,
            pll: PLLSetting::from_register(register),
        }
    }

    /// Encodes the configuration to its register byte.
    pub fn as_register(&self) -> (r: u8)
        ensures
            r == self.spec_as_register(),
    {
        let output_bits = self.clock_output.bits();
        let system_bits = self.system_clock.bits();
        let disable_bit: u8 = if self.disable_clock {
            1
        } else {
            0
        };
        let pll_bits = self.pll.bits();
        (output_bits << 5) | (system_bits << 4) | (disable_bit << 2) | pll_bits
    }
}

impl Default for ClockConfiguration {
    fn default() -> (r: Self)
        ensures
            r == ClockConfiguration::spec_default(),
    {
        ClockConfiguration {
            clock_output: ClockOutputDivisor::DivideBy1,
            system_clock: SystemClockDivisor::DivideBy1,
            disable_clock: false,
            pll: PLLSetting::DirectXTALOscillator,
        }
    }
}

/// Decoding a clock configuration register byte that was produced by
/// [`ClockConfiguration::as_register`] yields the configuration back:
/// encoding followed by decoding is the identity.
pub proof fn lemma_clock_configuration_round_trip(c: ClockConfiguration)
    ensures
        ClockConfiguration::spec_from_register(c.spec_as_register()) == c,
{
    let x = c.clock_output.spec_bits();
    let y = c.system_clock.spec_bits();
    let z: u8 = if c.disable_clock {
        1
    } else {
        0
    };
    let w = c.pll.spec_bits();
    let r = c.spec_as_register();
    assert(x <= 3 && y <= 1 && z <= 1 && w <= 1) by {
        match c.clock_output {
            ClockOutputDivisor::DivideBy10 => {},
            ClockOutputDivisor::DivideBy4 => {},
            ClockOutputDivisor::DivideBy2 => {},
            ClockOutputDivisor::DivideBy1 => {},
        }
    }
    assert(r == (x << 5) | (y << 4) | (z << 2) | w);
    assert(r >> 5 == x && (r & 0x10 != 0) == (y == 1) && (r & 0x04 != 0) == (z == 1) && (r & 0x01
        != 0) == (w == 1)) by (bit_vector)
        requires
            r == (x << 5) | (y << 4) | (z << 2) | w,
            x <= 3,
            y <= 1,
            z <= 1,
            w <= 1,
    ;
}

/// Divisor for clock output.
#[derive(Copy, Clone, Debug, PartialEq, Eq, Structural)]
pub enum ClockOutputDivisor {
    DivideBy10,
    DivideBy4,
    DivideBy2,
    DivideBy1,
}

impl Default for ClockOutputDivisor {
    fn default() -> (r: Self)
        ensures
            r == ClockOutputDivisor::DivideBy1,
    {
        ClockOutputDivisor::DivideBy1
    }
}

impl ClockOutputDivisor {
    /// Two-bit on-wire encoding of the divisor.
    pub open spec fn spec_bits(self) -> u8 {
        match self {
            ClockOutputDivisor::DivideBy10 => 3,
            ClockOutputDivisor::DivideBy4 => 2,
            ClockOutputDivisor::DivideBy2 => 1,
            ClockOutputDivisor::DivideBy1 => 0,
        }
    }

    /// Divisor encoded in the top two bits of a register byte.
    pub open spec fn spec_from_register(register: u8) -> ClockOutputDivisor {
        if register >> 5 == 3 {
            ClockOutputDivisor::DivideBy10
        } else if register >> 5 == 2 {
            ClockOutputDivisor::DivideBy4
        } else if register >> 5 == 1 {
            ClockOutputDivisor::DivideBy2
        } else {
            ClockOutputDivisor::DivideBy1
        }
    }

    /// Two-bit on-wire encoding of the divisor.
    pub fn bits(self) -> (r: u8)
        ensures
            r == self.spec_bits(),
    {
        match self {
            ClockOutputDivisor::DivideBy10 => 3,
            ClockOutputDivisor::DivideBy4 => 2,
            ClockOutputDivisor::DivideBy2 => 1,
            ClockOutputDivisor::DivideBy1 => 0,
        }
    }

    /// Maps a register byte to the divisor it encodes.
    pub fn from_register(register: u8) -> (r: Self)
        ensures
            r == ClockOutputDivisor::spec_from_register(register),
    {
        let bits = register >> 5;
        if bits == 3 {
            ClockOutputDivisor::DivideBy10
        } else if bits == 2 {
            ClockOutputDivisor::DivideBy4
        } else if bits == 1 {
            ClockOutputDivisor::DivideBy2
        } else {
            ClockOutputDivisor::DivideBy1
        }
    }
}

/// Divisor for the system clock.
#[derive(Copy, Clone, Debug, PartialEq, Eq, Structural)]
pub enum SystemClockDivisor {
    DivideBy2,
    DivideBy1,
}

impl Default for SystemClockDivisor {
    fn default() -> (r: Self)
        ensures
            r == SystemClockDivisor::DivideBy1,
    {
        SystemClockDivisor::DivideBy1
    }
}

impl SystemClockDivisor {
    /// One-bit on-wire encoding of the divisor.
    pub open spec fn spec_bits(self) -> u8 {
        match self {
            SystemClockDivisor::DivideBy2 => 1,
            SystemClockDivisor::DivideBy1 => 0,
        }
    }

    /// Divisor encoded in bit four of a register byte.
    pub open spec fn spec_from_register(register: u8) -> SystemClockDivisor {
        if register & 0x10 != 0 {
            SystemClockDivisor::DivideBy2
        } else {
            SystemClockDivisor::DivideBy1
        }
    }

    /// One-bit on-wire encoding of the divisor.
    pub fn bits(self) -> (r: u8)
        ensures
            r == self.spec_bits(),
    {
        match self {
            SystemClockDivisor::DivideBy2 => 1,
            SystemClockDivisor::DivideBy1 => 0,
        }
    }

    /// Maps a register byte to the divisor it encodes.
    pub fn from_register(register: u8) -> (r: Self)
        ensures
            r == SystemClockDivisor::spec_from_register(register),
    {
        if register & 0x10 != 0 {
            SystemClockDivisor::DivideBy2
        } else {
            SystemClockDivisor::DivideBy1
        }
    }
}

/// PLL configuration.
#[derive(Copy, Clone, Debug, PartialEq, Eq, Structural)]
pub enum PLLSetting {
    /// System clock from 10x PLL
    TenTimesPLL,
    /// System clock comes directly from XTAL oscillator
    DirectXTALOscillator,
}

impl Default for PLLSetting {
    fn default() -> (r: Self)
        ensures
            r == PLLSetting::DirectXTALOscillator,
    {
        PLLSetting::DirectXTALOscillator
    }
}

impl PLLSetting {
    /// One-bit on-wire encoding of the setting.
    pub open spec fn spec_bits(self) -> u8 {
        match self {
            PLLSetting::TenTimesPLL => 1,
            PLLSetting::DirectXTALOscillator => 0,
        }
    }

    /// Setting encoded in bit zero of a register byte.
    pub open spec fn spec_from_register(register: u8) -> PLLSetting {
        if register & 0x01 != 0 {
            PLLSetting::TenTimesPLL
        } else {
            PLLSetting::DirectXTALOscillator
        }
    }

    /// One-bit on-wire encoding of the setting.
    pub fn bits(self) -> (r: u8)
        ensures
            r == self.spec_bits(),
    {
        match self {
            PLLSetting::TenTimesPLL => 1,
            PLLSetting::DirectXTALOscillator => 0,
        }
    }

    /// Maps a register byte to the setting it encodes.
    pub fn from_register(register: u8) -> (r: Self)
        ensures
            r == PLLSetting::spec_from_register(register),
    {
        if register & 0x01 != 0 {
            PLLSetting::TenTimesPLL
        } else {
            PLLSetting::DirectXTALOscillator
        }
    }
}

/// Transmit and receive FIFO configuration.
#[derive(Copy, Clone, Debug)]
pub struct FifoConfiguration {
    /// Receive FIFO size in messages: 1 - 32.
    /// The value is clamped to that range when encoded.
    pub rx_size: u8,
    /// Number of retransmission attempts
    pub tx_attempts: RetransmissionAttempts,
    /// Transmission priority of the FIFO queue (0 = lowest, 31 = highest).
    /// The value is limited to 31 when encoded.
    pub tx_priority: u8,
    /// Transmission FIFO size in messages: 1 - 32.
    /// The value is clamped to that range when encoded.
    pub tx_size: u8,
    /// Number of payload bytes in a message
    pub pl_size: PayloadSize,
    /// Enables/Disables the TX FIFO
    pub tx_enable: bool,
}

impl Default for FifoConfiguration {
    fn default() -> (r: Self)
        ensures
            r == FifoConfiguration::spec_default(),
    {
        FifoConfiguration {
            rx_size: 32,
            tx_attempts: RetransmissionAttempts::Unlimited,
            tx_priority: 0,
            tx_size: 32,
            pl_size: PayloadSize::EightBytes,
            tx_enable: true,
        }
    }
}

/// A FIFO size clamped to the range the chip supports, one through thirty-two
/// messages.
pub open spec fn spec_limit_size(size: u8) -> u8 {
    if size < 1 {
        1
    } else if size > 32 {
        32
    } else {
        size
    }
}

impl FifoConfiguration {
    pub open spec fn spec_default() -> FifoConfiguration {
        FifoConfiguration {
            rx_size: 32,
            tx_attempts: RetransmissionAttempts::Unlimited,
            tx_priority: 0,
            tx_size: 32,
            pl_size: PayloadSize::EightBytes,
            tx_enable: true,
        }
    }

    /// Fourth RX FIFO control register byte: clamped size minus one in the
    /// low five bits, payload size in the top three bits.
    pub open spec fn spec_as_rx_register_3(self) -> u8 {
        (spec_limit_size(self.rx_size) - 1) as u8 | (self.pl_size.spec_bits() << 5)
    }

    /// First TX FIFO control register byte: bit seven enables the FIFO as a
    /// transmit FIFO.
    pub open spec fn spec_as_tx_register_0(self) -> u8 {
        if self.tx_enable {
            0x80
        } else {
            0x00
        }
    }

    /// Third TX FIFO control register byte: retransmission attempts in bits
    /// five and six, limited priority in the low five bits.
    pub open spec fn spec_as_tx_register_2(self) -> u8 {
        (self.tx_attempts.spec_bits() << 5) | (if self.tx_priority > 31 {
            31u8
        } else {
            self.tx_priority
        })
    }

    /// Fourth TX FIFO control register byte: clamped size minus one in the
    /// low five bits, payload size in the top three bits.
    pub open spec fn spec_as_tx_register_3(self) -> u8 {
        (spec_limit_size(self.tx_size) - 1) as u8 | (self.pl_size.spec_bits() << 5)
    }

    /// Encodes the configuration for the fourth RX FIFO control register byte.
    pub fn as_rx_register_3(&self) -> (r: u8)
        ensures
            r == self.spec_as_rx_register_3(),
    {
        (Self::limit_size(self.rx_size) - 1) | (self.pl_size.bits() << 5)
    }

    /// Encodes the configuration for the first TX FIFO control register byte.
    pub fn as_tx_register_0(&self) -> (r: u8)
        ensures
            r == self.spec_as_tx_register_0(),
    {
        if self.tx_enable {
            0x80
        } else {
            0x00
        }
    }

    /// Encodes the configuration for the third TX FIFO control register byte.
    pub fn as_tx_register_2(&self) -> (r: u8)
        ensures
            r == self.spec_as_tx_register_2(),
    {
        let priority: u8 = if self.tx_priority > 31 {
            31
        } else {
            self.tx_priority
        };
        (self.tx_attempts.bits() << 5) | priority
    }

    /// Encodes the configuration for the fourth TX FIFO control register byte.
    pub fn as_tx_register_3(&self) -> (r: u8)
        ensures
            r == self.spec_as_tx_register_3(),
    {
        (Self::limit_size(self.tx_size) - 1) | (self.pl_size.bits() << 5)
    }

    /// Limits a FIFO size to the values the chip supports.
    pub fn limit_size(size: u8) -> (r: u8)
        ensures
            r == spec_limit_size(size),
    {
        if size < 1 {
            1
        } else if size > 32 {
            32
        } else {
            size
        }
    }
}

/// Permitted sizes of the message payload for a FIFO.
#[derive(Copy, Clone, Debug, PartialEq, Eq, Structural)]
pub enum PayloadSize {
    EightBytes,
    TwelveBytes,
    SixteenBytes,
    TwentyBytes,
    TwentyFourBytes,
    ThirtyTwoBytes,
    FortyEightBytes,
    SixtyFourBytes,
}

impl PayloadSize {
    /// Three-bit on-wire encoding of the payload size.
    pub open spec fn spec_bits(self) -> u8 {
        match self {
            PayloadSize::EightBytes => 0,
            PayloadSize::TwelveBytes => 1,
            PayloadSize::SixteenBytes => 2,
            PayloadSize::TwentyBytes => 3,
            PayloadSize::TwentyFourBytes => 4,
            PayloadSize::ThirtyTwoBytes => 5,
            PayloadSize::FortyEightBytes => 6,
            PayloadSize::SixtyFourBytes => 7,
        }
    }

    /// Three-bit on-wire encoding of the payload size.
    pub fn bits(self) -> (r: u8)
        ensures
            r == self.spec_bits(),
    {
        match self {
            PayloadSize::EightBytes => 0,
            PayloadSize::TwelveBytes => 1,
            PayloadSize::SixteenBytes => 2,
            PayloadSize::TwentyBytes => 3,
            PayloadSize::TwentyFourBytes => 4,
            PayloadSize::ThirtyTwoBytes => 5,
            PayloadSize::FortyEightBytes => 6,
            PayloadSize::SixtyFourBytes => 7,
        }
    }
}

/// Number of retransmission attempts.
#[derive(Copy, Clone, Debug, PartialEq, Eq, Structural)]
pub enum RetransmissionAttempts {
    Disabled,
    Three,
    Unlimited,
}

impl Default for RetransmissionAttempts {
    fn default() -> (r: Self)
        ensures
            r == RetransmissionAttempts::Unlimited,
    {
        RetransmissionAttempts::Unlimited
    }
}

impl RetransmissionAttempts {
    /// Two-bit on-wire encoding of the attempt count.
    pub open spec fn spec_bits(self) -> u8 {
        match self {
            RetransmissionAttempts::Disabled => 0,
            RetransmissionAttempts::Three => 1,
            RetransmissionAttempts::Unlimited => 2,
        }
    }

    /// Two-bit on-wire encoding of the attempt count.
    pub fn bits(self) -> (r: u8)
        ensures
            r == self.spec_bits(),
    {
        match self {
            RetransmissionAttempts::Disabled => 0,
            RetransmissionAttempts::Three => 1,
            RetransmissionAttempts::Unlimited => 2,
        }
    }
}

/// Request mode: the subset of operation modes an application may request.
#[derive(Copy, Clone, Debug, PartialEq, Eq, Structural)]
pub enum RequestMode {
    /// Normal CAN FD mode, supports mixing CAN FD and classic CAN 2.0 frames
    NormalCANFD,
    /// Internal loopback mode
    InternalLoopback,
    /// External loopback mode
    ExternalLoopback,
    /// Listen-only mode
    ListenOnly,
    /// CAN 2.0 mode, possible error frames on CAN FD frames
    NormalCAN2_0,
}

impl Default for RequestMode {
    fn default() -> (r: Self)
        ensures
            r == RequestMode::NormalCANFD,
    {
        RequestMode::NormalCANFD
    }
}

impl RequestMode {
    /// The operation mode this request stands for.
    pub open spec fn spec_to_operation_mode(self) -> OperationMode {
        match self {
            RequestMode::NormalCANFD => OperationMode::NormalCANFD,
            RequestMode::InternalLoopback => OperationMode::InternalLoopback,
            RequestMode::ExternalLoopback => OperationMode::ExternalLoopback,
            RequestMode::ListenOnly => OperationMode::ListenOnly,
            RequestMode::NormalCAN2_0 => OperationMode::NormalCAN2_0,
        }
    }

    /// Maps the request to the operation mode it stands for.
    pub fn to_operation_mode(self) -> (r: OperationMode)
        ensures
            r == self.spec_to_operation_mode(),
    {
        match self {
            RequestMode::NormalCANFD => OperationMode::NormalCANFD,
            RequestMode::InternalLoopback => OperationMode::InternalLoopback,
            RequestMode::ExternalLoopback => OperationMode::ExternalLoopback,
            RequestMode::ListenOnly => OperationMode::ListenOnly,
            RequestMode::NormalCAN2_0 => OperationMode::NormalCAN2_0,
        }
    }
}

/// MCP2517FD system clock speed.
#[derive(Copy, Clone, Debug, PartialEq, Eq, Structural)]
pub enum SysClk {
    /// Chip SYSCLK is 20 MHz
    MHz20,
    /// Chip SYSCLK is 40 MHz
    Mhz40,
}

/// CAN bus baud rate.
#[derive(Copy, Clone, Debug, PartialEq, Eq, Structural)]
pub enum CanBaudRate {
    /// 1000 kilobits per second
    Kbps1000,
    /// 500 kilobits per second
    Kpbs500,
    /// 250 kilobits per second
    Kbps250,
    /// 125 kilobits per second
    Kbps125,
    /// 50 kilobits per second
    Kbps50,
    /// 10 kilobits per second
    Kbps10,
    /// 5 kilobits per second
    Kbps5,
}

/// Bit rate configuration.
#[derive(Copy, Clone, Debug, PartialEq, Eq, Structural)]
pub struct BitRateConfig {
    /// Operating speed of the chip: SYSCLK
    pub sys_clk: SysClk,
    /// CAN baud rate
    pub can_speed: CanBaudRate,
}

impl Default for BitRateConfig {
    fn default() -> (r: Self)
        ensures
            r == BitRateConfig::spec_default(),
    {
        BitRateConfig { sys_clk: SysClk::MHz20, can_speed: CanBaudRate::Kbps250 }
    }
}

impl BitRateConfig {
    pub open spec fn spec_default() -> BitRateConfig {
        BitRateConfig { sys_clk: SysClk::MHz20, can_speed: CanBaudRate::Kbps250 }
    }

    /// Nominal bit-time register values `[BRP, TSEG1, TSEG2, SJW]` for the
    /// clock/baud-rate pair. Pairs outside the enumerated table fold into
    /// the lowest-bit-rate fallback row.
    pub open spec fn spec_calculate_values(self) -> Seq<u8> {
        match (self.sys_clk, self.can_speed) {
            (SysClk::MHz20, CanBaudRate::Kbps1000) => seq![0u8, 13u8, 4u8, 1u8],
            (SysClk::MHz20, CanBaudRate::Kpbs500) => seq![0u8, 30u8, 7u8, 1u8],
            (SysClk::Mhz40, CanBaudRate::Kbps1000) => seq![0u8, 30u8, 7u8, 1u8],
            (SysClk::MHz20, CanBaudRate::Kbps250) => seq![0u8, 62u8, 15u8, 1u8],
            (SysClk::Mhz40, CanBaudRate::Kpbs500) => seq![0u8, 62u8, 15u8, 1u8],
            (SysClk::MHz20, CanBaudRate::Kbps125) => seq![0u8, 126u8, 31u8, 1u8],
            (SysClk::Mhz40, CanBaudRate::Kbps250) => seq![0u8, 126u8, 31u8, 1u8],
            _ => seq![0u8, 255u8, 63u8, 1u8],
        }
    }

    /// Calculates the C1NBTCFG register values `[BRP, TSEG1, TSEG2, SJW]`
    /// for the configured system clock and baud rate.
    pub fn calculate_values(&self) -> (r: [u8; 4])
        ensures
            r@ == self.spec_calculate_values(),
    {
        let r: [u8; 4] = match (self.sys_clk, self.can_speed) {
            (SysClk::MHz20, CanBaudRate::Kbps1000) => [0, 13, 4, 1],
            (SysClk::MHz20, CanBaudRate::Kpbs500) => [0, 30, 7, 1],
            (SysClk::Mhz40, CanBaudRate::Kbps1000) => [0, 30, 7, 1],
            (SysClk::MHz20, CanBaudRate::Kbps250) => [0, 62, 15, 1],
            (SysClk::Mhz40, CanBaudRate::Kpbs500) => [0, 62, 15, 1],
            (SysClk::MHz20, CanBaudRate::Kbps125) => [0, 126, 31, 1],
            (SysClk::Mhz40, CanBaudRate::Kbps250) => [0, 126, 31, 1],
            _ => [0, 255, 63, 1],
        };
        proof {
            assert(r@ =~= self.spec_calculate_values());
        }
        r
    }
}

} // verus!
