//! The MCP2517FD controller handle: the SPI command engine, the
//! mode-transition state machine, configuration bring-up, acceptance-filter
//! programming and the TX/RX message pipeline.
//!
//! The handle owns the injected SPI device and records every bus
//! transaction it performs in a ghost trace of [`BusEvent`] values; the
//! contracts of the public operations state the exact transactions each
//! operation performs and when each error is returned.

use crate::bus::{spec_u32_le, u32_le_bytes, u32_of_le_bytes, BusEvent, Clock, SpiDevice};
use crate::config::{ClockConfiguration, Configuration};
use crate::filter::Filter;
use crate::message::{bytes_content, MessageType, TxHeader, TxMessage};
use crate::registers::C1NBTCFG;
use crate::status::{OperationMode, OperationStatus, OscillatorStatus};
use vstd::prelude::*;
use vstd::seq_lib::*;

verus! {

/// Byte address of the CAN control register C1CON.
pub const REGISTER_C1CON: u16 = 0x000;

/// Byte address of the oscillator control register OSC.
pub const REGISTER_OSC: u16 = 0xE00;

/// Byte address of the nominal bit-time configuration register C1NBTCFG.
pub const REGISTER_C1NBTCFG: u16 = 0x004;

/// FIFO index for receiving CAN messages.
pub const FIFO_RX_INDEX: u8 = 1;

/// FIFO index for transmitting CAN messages.
pub const FIFO_TX_INDEX: u8 = 2;

/// How long the driver waits for a mode change, in microseconds.
pub const MODE_CHANGE_TIMEOUT_US: u64 = 2000;

/// Greatest number of status polls in one call. The polls are paced by the
/// bus, so the limit lies beyond any feasible run; it exists so that every
/// poll loop provably makes progress.
pub const POLL_LIMIT: u64 = u64::MAX;

/// A failure of the SPI transport, wrapping the device's own error.
#[derive(Debug)]
pub enum SpiError<E> {
    BusError(E),
}

impl<E> PartialEq for SpiError<E> {
    /// Two transport failures compare equal; the wrapped error is not
    /// interpreted.
    fn eq(&self, other: &Self) -> (r: bool) {
        match (self, other) {
            (SpiError::BusError(_), SpiError::BusError(_)) => true,
        }
    }
}

impl<E> vstd::std_specs::cmp::PartialEqSpecImpl for SpiError<E> {
    open spec fn obeys_eq_spec() -> bool {
        true
    }

    open spec fn eq_spec(&self, other: &Self) -> bool {
        true
    }
}

/// Possible CAN errors during configuration, transmission or reception.
#[derive(Debug)]
pub enum CanError<E> {
    /// SPI bus transfer error
    BusErr(SpiError<E>),
    /// Internal clock error
    ClockError,
    /// No configuration mode within the two-millisecond timeout
    ConfigurationModeTimeout,
    /// Device did not enter the requested mode within the two-millisecond
    /// timeout
    RequestModeTimeout,
    /// Invalid payload byte length
    InvalidPayloadLength(usize),
    /// Computed RAM address outside the chip's message RAM
    InvalidRamAddress(u16),
    /// Receive buffer length not a multiple of four bytes
    InvalidBufferSize(usize),
    /// RX FIFO empty
    RxFifoEmptyErr,
    /// TX FIFO full
    TxFifoFullErr,
}

impl<E> CanError<E> {
    /// Whether two errors are the same error: the same variant, with equal
    /// payloads where the variant carries one; bus errors compare equal
    /// whatever transport error they wrap.
    pub open spec fn spec_same_error(self, other: CanError<E>) -> bool {
        match (self, other) {
            (CanError::BusErr(_), CanError::BusErr(_)) => true,
            (CanError::ClockError, CanError::ClockError) => true,
            (CanError::ConfigurationModeTimeout, CanError::ConfigurationModeTimeout) => true,
            (CanError::RequestModeTimeout, CanError::RequestModeTimeout) => true,
            (CanError::InvalidPayloadLength(a), CanError::InvalidPayloadLength(b)) => a == b,
            (CanError::InvalidRamAddress(a), CanError::InvalidRamAddress(b)) => a == b,
            (CanError::InvalidBufferSize(a), CanError::InvalidBufferSize(b)) => a == b,
            (CanError::RxFifoEmptyErr, CanError::RxFifoEmptyErr) => true,
            (CanError::TxFifoFullErr, CanError::TxFifoFullErr) => true,
            _ => false,
        }
    }
}

impl<E> PartialEq for CanError<E> {
    fn eq(&self, other: &Self) -> (r: bool) {
        match (self, other) {
            (CanError::BusErr(_), CanError::BusErr(_)) => true,
            (CanError::ClockError, CanError::ClockError) => true,
            (CanError::ConfigurationModeTimeout, CanError::ConfigurationModeTimeout) => true,
            (CanError::RequestModeTimeout, CanError::RequestModeTimeout) => true,
            (CanError::InvalidPayloadLength(a), CanError::InvalidPayloadLength(b)) => a == b,
            (CanError::InvalidRamAddress(a), CanError::InvalidRamAddress(b)) => a == b,
            (CanError::InvalidBufferSize(a), CanError::InvalidBufferSize(b)) => a == b,
            (CanError::RxFifoEmptyErr, CanError::RxFifoEmptyErr) => true,
            (CanError::TxFifoFullErr, CanError::TxFifoFullErr) => true,
            _ => false,
        }
    }
}

impl<E> vstd::std_specs::cmp::PartialEqSpecImpl for CanError<E> {
    open spec fn obeys_eq_spec() -> bool {
        true
    }

    open spec fn eq_spec(&self, other: &Self) -> bool {
        self.spec_same_error(*other)
    }
}

/// Opcode of the reset command.
pub const OPCODE_RESET: u8 = 0b0000;

/// Opcode of a register write command.
pub const OPCODE_WRITE: u8 = 0b0010;

/// Opcode of a register read command.
pub const OPCODE_READ: u8 = 0b0011;

/// The two bytes of an SPI command word: four opcode bits, then the twelve
/// address bits, big-endian on the wire.
pub open spec fn spec_cmd_bytes(register: u16, op: u8) -> Seq<u8> {
    let command = (register & 0x0FFF) | ((op as u16) << 12);
    seq![(command >> 8) as u8, (command & 0xFF) as u8]
}

/// Builds the two command bytes for the given register and opcode.
fn cmd_bytes(register: u16, op: u8) -> (r: [u8; 2])
    ensures
        r@ == spec_cmd_bytes(register, op),
{
    let command = (register & 0x0FFF) | ((op as u16) << 12);
    proof {
        let c = command;
        assert((c >> 8) < 256 && (c & 0xFF) < 256) by (bit_vector);
    }
    let r = [(command >> 8) as u8, (command & 0xFF) as u8];
    proof {
        assert(r@ =~= spec_cmd_bytes(register, op));
    }
    r
}

/// The configuration register byte address of the given FIFO.
pub open spec fn spec_fifo_control_register(fifo_index: u8) -> u16 {
    (0x05C + 12 * (fifo_index - 1)) as u16
}

/// Returns the configuration register address for the given FIFO index.
pub fn fifo_control_register(fifo_index: u8) -> (r: u16)
    requires
        1 <= fifo_index <= 31,
    ensures
        r == spec_fifo_control_register(fifo_index),
{
    0x05C + 12 * (fifo_index as u16 - 1)
}

/// The status register byte address of the given FIFO.
pub open spec fn spec_fifo_status_register(fifo_index: u8) -> u16 {
    (0x060 + 12 * (fifo_index - 1)) as u16
}

/// Returns the status register address for the given FIFO index.
pub fn fifo_status_register(fifo_index: u8) -> (r: u16)
    requires
        1 <= fifo_index <= 31,
    ensures
        r == spec_fifo_status_register(fifo_index),
{
    0x060 + 12 * (fifo_index as u16 - 1)
}

/// The user-address register byte address of the given FIFO.
pub open spec fn spec_fifo_user_address_register(fifo_index: u8) -> u16 {
    (0x064 + 12 * (fifo_index - 1)) as u16
}

/// Returns the user-address register address for the given FIFO index.
pub fn fifo_user_address_register(fifo_index: u8) -> (r: u16)
    requires
        1 <= fifo_index <= 31,
    ensures
        r == spec_fifo_user_address_register(fifo_index),
{
    0x064 + 12 * (fifo_index as u16 - 1)
}

/// The filter-control register byte address of the given filter.
pub open spec fn spec_filter_control_register(filter_index: u8) -> u16 {
    (0x1D0 + filter_index) as u16
}

/// Returns the filter-control register byte address of the given filter.
pub fn filter_control_register_byte(filter_index: u8) -> (r: u16)
    requires
        filter_index <= 31,
    ensures
        r == spec_filter_control_register(filter_index),
{
    0x1D0 + filter_index as u16
}

/// The filter-object register address of the given filter.
pub open spec fn spec_filter_object_register(filter_index: u8) -> u16 {
    (0x1F0 + 8 * filter_index) as u16
}

/// Returns the filter-object register address of the given filter.
pub fn filter_object_register(filter_index: u8) -> (r: u16)
    requires
        filter_index <= 31,
    ensures
        r == spec_filter_object_register(filter_index),
{
    0x1F0 + 8 * (filter_index as u16)
}

/// The filter-mask register address of the given filter.
pub open spec fn spec_filter_mask_register(filter_index: u8) -> u16 {
    (0x1F4 + 8 * filter_index) as u16
}

/// Returns the filter-mask register address of the given filter.
pub fn filter_mask_register(filter_index: u8) -> (r: u16)
    requires
        filter_index <= 31,
    ensures
        r == spec_filter_mask_register(filter_index),
{
    0x1F4 + 8 * (filter_index as u16)
}

/// A value reduced to the sixteen bits a register address holds.
pub open spec fn spec_wrap16(x: int) -> u16 {
    (x % 0x10000) as u16
}

/// The RAM byte address of a message object, given the FIFO's user address:
/// the user address plus the 0x400 RAM base, in sixteen bits.
pub open spec fn spec_ram_address(user_address: u32) -> u16 {
    spec_wrap16(user_address + 0x400)
}

/// Computes the RAM byte address of a message object from a FIFO user
/// address.
fn ram_address(user_address: u32) -> (r: u16)
    ensures
        r == spec_ram_address(user_address),
{
    let wide = (user_address as u64) + 0x400;
    proof {
        let w = wide;
        assert((w & 0xFFFF) == w % 0x10000 && (w & 0xFFFF) < 0x10000) by (bit_vector);
    }
    (wide & 0xFFFF) as u16
}

/// The eight header bytes of a message object as written to RAM: each of
/// the two header words little-endian.
pub open spec fn spec_tx_header_bytes(header: TxHeader) -> Seq<u8> {
    spec_u32_le(header.spec_word0()) + spec_u32_le(header.spec_word1())
}

/// The payload bytes of a message object as written to RAM: the payload,
/// padded with zeroes up to the kind's capacity.
pub open spec fn spec_padded_payload(content: Seq<u8>, capacity: usize) -> Seq<u8> {
    Seq::new(
        capacity as nat,
        |i: int|
            if i < content.len() {
                content[i]
            } else {
                0u8
            },
    )
}

/// Whether the event is a read of the given register byte.
pub open spec fn spec_is_reg_read(e: BusEvent, register: u16) -> bool {
    e matches BusEvent::RegRead { addr, value } && addr == register
}

/// Whether the event is a read of the given FIFO status byte with the
/// not-full/not-empty flag set.
pub open spec fn spec_read_flag_set(e: BusEvent, register: u16) -> bool {
    e matches BusEvent::RegRead { addr, value } && addr == register && value & 0x01 == 0x01
}

/// A run of reads of the given FIFO status byte, ending with the first one
/// that has the not-full/not-empty flag set.
pub open spec fn spec_flag_poll_seq(s: Seq<BusEvent>, register: u16) -> bool {
    &&& s.len() >= 1
    &&& forall|i: int| 0 <= i < s.len() ==> spec_is_reg_read(#[trigger] s[i], register)
    &&& forall|i: int| 0 <= i < s.len() - 1 ==> !spec_read_flag_set(#[trigger] s[i], register)
    &&& spec_read_flag_set(s.last(), register)
}

/// A wait on the TX FIFO control byte holding the TXREQ bit: reads of that
/// byte, each but the last seeing the bit still set, ending with the first
/// clear one — or, beyond any feasible run, `POLL_LIMIT` reads that all saw
/// the bit set.
pub open spec fn spec_txreq_wait_seq(s: Seq<BusEvent>, register: u16) -> bool {
    &&& s.len() >= 1
    &&& forall|i: int| 0 <= i < s.len() ==> spec_is_reg_read(#[trigger] s[i], register)
    &&& forall|i: int|
        0 <= i < s.len() - 1 ==> ((#[trigger] s[i]) matches BusEvent::RegRead { addr, value }
            && value & 0x02 != 0)
    &&& ((s.last() matches BusEvent::RegRead { addr, value } && value & 0x02 == 0) || s.len()
        >= POLL_LIMIT)
}

/// One possible full shape of a successful transmit call's bus activity,
/// with every observed value named: the status polls `p`, the operation
/// mode byte `m`, the user address `ua` and the TXREQ wait `q`.
pub open spec fn spec_transmit_ok_witness(
    pre: Seq<BusEvent>,
    t: Seq<BusEvent>,
    header: TxHeader,
    content: Seq<u8>,
    capacity: usize,
    blocking: bool,
    p: Seq<BusEvent>,
    m: u8,
    ua: u32,
    q: Seq<BusEvent>,
) -> bool {
    let a = spec_ram_address(ua);
    &&& spec_flag_poll_seq(p, 0x06C)
    &&& !(content.len() > 8 && OperationMode::spec_from_register(m) != OperationMode::NormalCANFD)
    &&& 0x400 <= a && a + capacity <= 0xBFF
    &&& t == pre + p + seq![
        BusEvent::RegRead { addr: 0x002, value: m },
        BusEvent::SfrRead { addr: 0x070, value: ua },
        BusEvent::FifoWrite {
            addr: a,
            header: spec_tx_header_bytes(header),
            payload: spec_padded_payload(content, capacity),
        },
        BusEvent::RegWrite { addr: 0x069, value: 0x03 },
    ] + q
    &&& (if blocking {
        spec_txreq_wait_seq(q, 0x069)
    } else {
        q == Seq::<BusEvent>::empty()
    })
}

/// The bus activity of a successful transmit call: TX status polls ending
/// with the not-full flag set, the operation mode read, the user-address
/// read, the message object written to RAM, the TXREQ-and-UINC write, and,
/// when blocking, the wait for TXREQ to clear.
pub open spec fn spec_transmit_ok_trace(
    pre: Seq<BusEvent>,
    t: Seq<BusEvent>,
    header: TxHeader,
    content: Seq<u8>,
    capacity: usize,
    blocking: bool,
) -> bool {
    exists|p: Seq<BusEvent>, m: u8, ua: u32, q: Seq<BusEvent>|
        spec_transmit_ok_witness(pre, t, header, content, capacity, blocking, p, m, ua, q)
}

/// One possible full shape of a successful receive call's bus activity,
/// with the status polls `p` and the user address `ua` named; `payload` is
/// what the FIFO read returned.
pub open spec fn spec_receive_ok_witness(
    pre: Seq<BusEvent>,
    t: Seq<BusEvent>,
    payload: Seq<u8>,
    p: Seq<BusEvent>,
    ua: u32,
) -> bool {
    &&& spec_flag_poll_seq(p, 0x060)
    &&& t == pre + p + seq![
        BusEvent::SfrRead { addr: 0x064, value: ua },
        BusEvent::FifoRead {
            addr: spec_wrap16(spec_ram_address(ua) + 8),
            data: payload,
        },
        BusEvent::RegWrite { addr: 0x05D, value: 0x01 },
    ]
}

/// The bus activity of a successful receive call: RX status polls ending
/// with the not-empty flag set, the user-address read, the payload read
/// from RAM past the receive header, and the UINC write advancing the
/// FIFO tail.
pub open spec fn spec_receive_ok_trace(
    pre: Seq<BusEvent>,
    t: Seq<BusEvent>,
    payload: Seq<u8>,
) -> bool {
    exists|p: Seq<BusEvent>, ua: u32| spec_receive_ok_witness(pre, t, payload, p, ua)
}

/// Whether the event is a successful clock reading.
pub open spec fn spec_is_clock_read(e: BusEvent) -> bool {
    e matches BusEvent::ClockRead { value }
}

/// The events a mode-transition poll records after the request write: the
/// starting clock reading, then alternating operation status reads and
/// clock readings, possibly cut short by a failed transfer or ending in a
/// failed reading.
pub open spec fn spec_mode_poll_events(s: Seq<BusEvent>) -> bool {
    forall|i: int|
        0 <= i < s.len() ==> (spec_is_reg_read(#[trigger] s[i], 0x002) || spec_is_clock_read(s[i])
            || s[i] is ClockFault)
}

/// The poll reached the target: the operation status read before the final
/// clock reading decoded to the given mode.
pub open spec fn spec_mode_polls_reached(s: Seq<BusEvent>, mode: OperationMode) -> bool {
    &&& s.len() >= 3
    &&& (s[s.len() - 2] matches BusEvent::RegRead { addr, value } && addr == 0x002
        && OperationMode::spec_from_register(value) == mode)
    &&& spec_is_clock_read(s.last())
}

/// The clock gave out during the poll: the last reading could not be
/// produced, or the one starting reading was so late that the deadline
/// would not fit in the tick counter.
pub open spec fn spec_clock_gave_out(s: Seq<BusEvent>) -> bool {
    ||| (s.len() >= 1 && s.last() is ClockFault)
    ||| (s.len() == 1 && (s[0] matches BusEvent::ClockRead { value } && value > u64::MAX
        - MODE_CHANGE_TIMEOUT_US))
}

/// The write requesting the given operation mode: the request-mode bits
/// together with the abort-all-transactions bit, written to the fourth
/// C1CON byte.
pub open spec fn spec_mode_request_write(mode: OperationMode) -> BusEvent {
    BusEvent::RegWrite { addr: 0x003, value: mode.spec_bits() | 0x08 }
}

/// The packed nominal bit-time register word for a bit-rate configuration.
pub open spec fn spec_nbt_word(bit_rate: crate::config::BitRateConfig) -> u32 {
    let v = bit_rate.spec_calculate_values();
    (C1NBTCFG {
        brp: v[0],
        tseg1: v[1],
        tseg2: (v[2] & 0x7F) as u8,
        sjw: (v[3] & 0x7F) as u8,
    }).spec_as_u32()
}

/// The nine register writes `configure` performs between the two mode
/// transitions: the oscillator byte, the bit-time word, the RX and TX FIFO
/// control bytes, and the three writes enabling filter zero routed to the
/// RX FIFO.
pub open spec fn spec_configuration_writes(config: Configuration) -> Seq<BusEvent> {
    seq![
        BusEvent::RegWrite { addr: 0xE00, value: config.clock.spec_as_register() },
        BusEvent::SfrWrite { addr: 0x004, value: spec_nbt_word(config.bit_rate) },
        BusEvent::RegWrite { addr: 0x05F, value: config.fifo.spec_as_rx_register_3() },
        BusEvent::RegWrite { addr: 0x06A, value: config.fifo.spec_as_tx_register_2() },
        BusEvent::RegWrite { addr: 0x06B, value: config.fifo.spec_as_tx_register_3() },
        BusEvent::RegWrite { addr: 0x068, value: config.fifo.spec_as_tx_register_0() },
        BusEvent::RegWrite { addr: 0x1D0, value: 0x00 },
        BusEvent::RegWrite { addr: 0x1D0, value: 0x01 },
        BusEvent::RegWrite { addr: 0x1D0, value: 0x81 },
    ]
}

/// The trace of a configure call that ended during its first mode
/// transition: the configuration-mode request followed by that
/// transition's poll events.
pub open spec fn spec_configure_entry_trace(
    pre: Seq<BusEvent>,
    t: Seq<BusEvent>,
    p1: Seq<BusEvent>,
) -> bool {
    &&& t == pre + seq![spec_mode_request_write(OperationMode::Configuration)] + p1
    &&& spec_mode_poll_events(p1)
}

/// The trace of a configure call that reached configuration mode and then
/// ended during the nine configuration writes: the writes performed so far
/// form a nonempty prefix, the failing one included.
pub open spec fn spec_configure_partial_writes_trace(
    pre: Seq<BusEvent>,
    t: Seq<BusEvent>,
    config: Configuration,
    p1: Seq<BusEvent>,
    w: Seq<BusEvent>,
) -> bool {
    &&& t == pre + seq![spec_mode_request_write(OperationMode::Configuration)] + p1 + w
    &&& spec_mode_poll_events(p1)
    &&& spec_mode_polls_reached(p1, OperationMode::Configuration)
    &&& 1 <= w.len()
    &&& w.is_prefix_of(spec_configuration_writes(config))
}

/// The full trace of a configure call that reached its second mode
/// transition: the configuration-mode request and the polls that reached
/// configuration mode, the nine configuration writes, the target-mode
/// request, and that transition's poll events.
pub open spec fn spec_configure_full_trace(
    pre: Seq<BusEvent>,
    t: Seq<BusEvent>,
    config: Configuration,
    p1: Seq<BusEvent>,
    p2: Seq<BusEvent>,
) -> bool {
    &&& t == pre + seq![spec_mode_request_write(OperationMode::Configuration)] + p1
        + spec_configuration_writes(config) + seq![
        spec_mode_request_write(config.mode.spec_to_operation_mode()),
    ] + p2
    &&& spec_mode_poll_events(p1)
    &&& spec_mode_polls_reached(p1, OperationMode::Configuration)
    &&& spec_mode_poll_events(p2)
}

/// Main MCP2517FD CAN controller handle. It exclusively owns the SPI
/// device; the clock is borrowed per call.
pub struct MCP2517<D: SpiDevice> {
    /// Device on the SPI bus
    device: D,
    /// Ghost trace of every bus transaction performed through this handle,
    /// oldest first
    trace: Ghost<Seq<BusEvent>>,
}

impl<D: SpiDevice> MCP2517<D> {
    /// The ghost trace of every bus transaction this handle has performed,
    /// oldest first.
    pub closed spec fn bus_trace(self) -> Seq<BusEvent> {
        self.trace@
    }

    /// Creates a handle owning the given SPI device, with an empty trace.
    pub fn new(spi_dev: D) -> (r: Self)
        ensures
            r.bus_trace() == Seq::<BusEvent>::empty(),
    {
        MCP2517 { device: spi_dev, trace: Ghost(Seq::empty()) }
    }

    /// Writes a single register byte: a three-byte exchange of the command
    /// word and the value. The write is recorded whether or not the
    /// transport succeeds.
    fn write_register(&mut self, register: u16, value: u8) -> (r: Result<(), CanError<D::Error>>)
        ensures
            final(self).bus_trace() == old(self).bus_trace().push(BusEvent::RegWrite { addr: register, value }),
            r is Ok || r matches Err(CanError::BusErr(_)),
    {
        let cmd = cmd_bytes(register, OPCODE_WRITE);
        let mut buffer: [u8; 3] = [cmd[0], cmd[1], value];
        let res = self.device.transfer_in_place(&mut buffer);
        proof {
            self.trace@ = self.trace@.push(BusEvent::RegWrite { addr: register, value });
        }
        match res {
            Ok(()) => Ok(()),
            Err(e) => Err(CanError::BusErr(SpiError::BusError(e))),
        }
    }

    /// Reads a single register byte: a three-byte exchange of the command
    /// word and a dummy byte; the last received byte is the value.
    fn read_register(&mut self, register: u16) -> (r: Result<u8, CanError<D::Error>>)
        ensures
            match r {
                Ok(v) => final(self).bus_trace() == old(self).bus_trace().push(
                    BusEvent::RegRead { addr: register, value: v },
                ),
                Err(e) => final(self).bus_trace() == old(self).bus_trace() && e matches CanError::BusErr(_),
            },
    {
        let cmd = cmd_bytes(register, OPCODE_READ);
        let mut buffer: [u8; 3] = [cmd[0], cmd[1], 0];
        let res = self.device.transfer_in_place(&mut buffer);
        match res {
            Ok(()) => {
                let value = buffer[2];
                proof {
                    self.trace@ = self.trace@.push(BusEvent::RegRead { addr: register, value });
                }
                Ok(value)
            },
            Err(e) => Err(CanError::BusErr(SpiError::BusError(e))),
        }
    }

    /// Writes a 32-bit SFR: the command word followed by the value in
    /// little-endian order, in one six-byte write. The write is recorded
    /// whether or not the transport succeeds.
    fn write32(&mut self, register: u16, value: u32) -> (r: Result<(), CanError<D::Error>>)
        ensures
            final(self).bus_trace() == old(self).bus_trace().push(BusEvent::SfrWrite { addr: register, value }),
            r is Ok || r matches Err(CanError::BusErr(_)),
    {
        let cmd = cmd_bytes(register, OPCODE_WRITE);
        let le = u32_le_bytes(value);
        let buffer: [u8; 6] = [cmd[0], cmd[1], le[0], le[1], le[2], le[3]];
        let res = self.device.write(&buffer);
        proof {
            self.trace@ = self.trace@.push(BusEvent::SfrWrite { addr: register, value });
        }
        match res {
            Ok(()) => Ok(()),
            Err(e) => Err(CanError::BusErr(SpiError::BusError(e))),
        }
    }

    /// Reads a 32-bit SFR: the command word, then four clocked-in bytes
    /// assembled little-endian.
    fn read32(&mut self, register: u16) -> (r: Result<u32, CanError<D::Error>>)
        ensures
            match r {
                Ok(v) => final(self).bus_trace() == old(self).bus_trace().push(
                    BusEvent::SfrRead { addr: register, value: v },
                ),
                Err(e) => final(self).bus_trace() == old(self).bus_trace() && e matches CanError::BusErr(_),
            },
    {
        let cmd = cmd_bytes(register, OPCODE_READ);
        let mut data: Vec<u8> = Vec::new();
        data.push(0);
        data.push(0);
        data.push(0);
        data.push(0);
        let res = self.device.write_then_read(&cmd, &mut data);
        match res {
            Ok(()) => {
                let value = u32_of_le_bytes(data[0], data[1], data[2], data[3]);
                proof {
                    self.trace@ = self.trace@.push(BusEvent::SfrRead { addr: register, value });
                }
                Ok(value)
            },
            Err(e) => Err(CanError::BusErr(SpiError::BusError(e))),
        }
    }

    /// Resets the chip's registers to their defaults and switches it to
    /// configuration mode: the reset command at address zero.
    pub fn reset(&mut self) -> (r: Result<(), CanError<D::Error>>)
        ensures
            final(self).bus_trace() == old(self).bus_trace().push(BusEvent::Reset),
            r is Ok || r matches Err(CanError::BusErr(_)),
    {
        let cmd = cmd_bytes(0, OPCODE_RESET);
        let mut buffer: [u8; 3] = [cmd[0], cmd[1], 0];
        let res = self.device.transfer_in_place(&mut buffer);
        proof {
            self.trace@ = self.trace@.push(BusEvent::Reset);
        }
        match res {
            Ok(()) => Ok(()),
            Err(e) => Err(CanError::BusErr(SpiError::BusError(e))),
        }
    }

    /// Reads and returns the operation status from the third C1CON byte.
    pub fn read_operation_status(&mut self) -> (r: Result<OperationStatus, CanError<D::Error>>)
        ensures
            match r {
                Ok(st) => {
                    &&& final(self).bus_trace().len() == old(self).bus_trace().len() + 1
                    &&& final(self).bus_trace().drop_last() == old(self).bus_trace()
                    &&& (final(self).bus_trace().last() matches BusEvent::RegRead { addr, value } && addr
                        == 0x002 && st == OperationStatus::spec_from_register(value))
                },
                Err(e) => final(self).bus_trace() == old(self).bus_trace() && e matches CanError::BusErr(_),
            },
    {
        match self.read_register(REGISTER_C1CON + 2) {
            Ok(data) => {
                proof {
                    assert(self.trace@.drop_last() =~= old(self).bus_trace());
                }
                Ok(OperationStatus::from_register(data))
            },
            Err(e) => Err(e),
        }
    }

    /// Reads and returns the oscillator status from the second OSC byte.
    pub fn read_oscillator_status(&mut self) -> (r: Result<OscillatorStatus, CanError<D::Error>>)
        ensures
            match r {
                Ok(st) => {
                    &&& final(self).bus_trace().len() == old(self).bus_trace().len() + 1
                    &&& final(self).bus_trace().drop_last() == old(self).bus_trace()
                    &&& (final(self).bus_trace().last() matches BusEvent::RegRead { addr, value } && addr
                        == 0xE01 && st == OscillatorStatus::spec_from_register(value))
                },
                Err(e) => final(self).bus_trace() == old(self).bus_trace() && e matches CanError::BusErr(_),
            },
    {
        match self.read_register(REGISTER_OSC + 1) {
            Ok(data) => {
                proof {
                    assert(self.trace@.drop_last() =~= old(self).bus_trace());
                }
                Ok(OscillatorStatus::from_register(data))
            },
            Err(e) => Err(e),
        }
    }

    /// Reads and returns the current clock configuration from the OSC byte.
    pub fn read_clock_configuration(&mut self) -> (r: Result<ClockConfiguration, CanError<
        D::Error,
    >>)
        ensures
            match r {
                Ok(c) => {
                    &&& final(self).bus_trace().len() == old(self).bus_trace().len() + 1
                    &&& final(self).bus_trace().drop_last() == old(self).bus_trace()
                    &&& (final(self).bus_trace().last() matches BusEvent::RegRead { addr, value } && addr
                        == 0xE00 && c == ClockConfiguration::spec_from_register(value))
                },
                Err(e) => final(self).bus_trace() == old(self).bus_trace() && e matches CanError::BusErr(_),
            },
    {
        match self.read_register(REGISTER_OSC) {
            Ok(data) => {
                proof {
                    assert(self.trace@.drop_last() =~= old(self).bus_trace());
                }
                Ok(ClockConfiguration::from_register(data))
            },
            Err(e) => Err(e),
        }
    }

    /// Reads the first status byte of a FIFO and returns whether the
    /// not-full/not-empty flag is set.
    fn fifo_tfnrfnif(&mut self, fifo_reg_addr: u16) -> (r: Result<bool, CanError<D::Error>>)
        ensures
            match r {
                Ok(b) => {
                    &&& final(self).bus_trace().len() == old(self).bus_trace().len() + 1
                    &&& final(self).bus_trace().drop_last() == old(self).bus_trace()
                    &&& spec_is_reg_read(final(self).bus_trace().last(), fifo_reg_addr)
                    &&& b == spec_read_flag_set(final(self).bus_trace().last(), fifo_reg_addr)
                },
                Err(e) => final(self).bus_trace() == old(self).bus_trace() && e matches CanError::BusErr(_),
            },
    {
        match self.read_register(fifo_reg_addr) {
            Ok(byte) => {
                proof {
                    assert(self.trace@.drop_last() =~= old(self).bus_trace());
                }
                proof {
                    let b = byte;
                    assert((b & 0x01 != 0) == (b & 0x01 == 0x01)) by (bit_vector);
                }
                let status = crate::registers::FifoStatusReg0::from_byte(byte);
                Ok(status.tfnrfnif())
            },
            Err(e) => Err(e),
        }
    }

    /// Reads the second control byte of the TX FIFO and returns whether the
    /// TXREQ bit is clear, that is, whether every queued message has been
    /// transmitted.
    fn txfifo_cleared(&mut self, fifo_ctrl_reg: u16) -> (r: Result<bool, CanError<D::Error>>)
        ensures
            match r {
                Ok(b) => {
                    &&& final(self).bus_trace().len() == old(self).bus_trace().len() + 1
                    &&& final(self).bus_trace().drop_last() == old(self).bus_trace()
                    &&& spec_is_reg_read(final(self).bus_trace().last(), fifo_ctrl_reg)
                    &&& (final(self).bus_trace().last() matches BusEvent::RegRead { addr, value }
                        && b == (value & 0x02 == 0))
                },
                Err(e) => final(self).bus_trace() == old(self).bus_trace() && e matches CanError::BusErr(_),
            },
    {
        match self.read_register(fifo_ctrl_reg) {
            Ok(byte) => {
                proof {
                    assert(self.trace@.drop_last() =~= old(self).bus_trace());
                }
                let control = crate::registers::FifoControlReg1::from_byte(byte);
                Ok(!control.txreq())
            },
            Err(e) => Err(e),
        }
    }

    /// Writes a message object to RAM: one transaction of the command word
    /// plus the eight header bytes (each word little-endian), followed by
    /// the payload padded with zeroes up to the kind's capacity. The write
    /// happens only if the padded object lies inside the chip's message
    /// RAM; otherwise `InvalidRamAddress` is returned and the bus is not
    /// touched.
    fn write_fifo<T: MessageType>(&mut self, register: u16, message: &TxMessage<T>) -> (r: Result<
        (),
        CanError<D::Error>,
    >)
        requires
            message.wf(),
        ensures
            ({
                let capacity = message.message_type.spec_max_len();
                if 0x400 <= register && register + capacity <= 0xBFF {
                    &&& final(self).bus_trace() == old(self).bus_trace().push(
                        BusEvent::FifoWrite {
                            addr: register,
                            header: spec_tx_header_bytes(message.header),
                            payload: spec_padded_payload(
                                bytes_content(message.buff),
                                message.message_type.spec_max_len(),
                            ),
                        },
                    )
                    &&& (r is Ok || r matches Err(CanError::BusErr(_)))
                } else {
                    &&& final(self).bus_trace() == old(self).bus_trace()
                    &&& r == Err::<(), CanError<D::Error>>(CanError::InvalidRamAddress(register))
                }
            }),
    {
        let capacity = message.message_type.max_len();
        if register < 0x400 || (register as u32) + (capacity as u32) > 0xBFF {
            return Err(CanError::InvalidRamAddress(register));
        }
        let cmd = cmd_bytes(register, OPCODE_WRITE);
        let header0 = u32_le_bytes(message.header.word0());
        let header1 = u32_le_bytes(message.header.word1());
        let buffer: [u8; 10] = [
            cmd[0],
            cmd[1],
            header0[0],
            header0[1],
            header0[2],
            header0[3],
            header1[0],
            header1[1],
            header1[2],
            header1[3],
        ];
        let payload = message.get_payload();
        let mut data: Vec<u8> = Vec::new();
        let mut i: usize = 0;
        while i < capacity
            invariant
                i <= capacity,
                payload@ == bytes_content(message.buff),
                data@ =~= spec_padded_payload(bytes_content(message.buff), capacity).take(i as int),
            decreases capacity - i,
        {
            if i < payload.len() {
                let b = payload[i];
                data.push(b);
            } else {
                data.push(0);
            }
            i = i + 1;
        }
        proof {
            assert(data@ =~= spec_padded_payload(bytes_content(message.buff), capacity));
        }
        let res = self.device.write_then_write(&buffer, &data);
        proof {
            self.trace@ = self.trace@.push(
                BusEvent::FifoWrite {
                    addr: register,
                    header: spec_tx_header_bytes(message.header),
                    payload: data@,
                },
            );
        }
        match res {
            Ok(()) => Ok(()),
            Err(e) => Err(CanError::BusErr(SpiError::BusError(e))),
        }
    }

    /// Reads the payload of a message object from RAM into the caller's
    /// buffer: one transaction of the command word pointing eight bytes
    /// past the object (skipping the receive header), then a read of the
    /// buffer's length. The buffer length must be a multiple of four.
    pub fn read_fifo(&mut self, register: u16, data: &mut Vec<u8>) -> (r: Result<(), CanError<
        D::Error,
    >>)
        ensures
            final(data)@.len() == old(data)@.len(),
            old(data)@.len() % 4 != 0 ==> {
                &&& (r matches Err(CanError::InvalidBufferSize(n)) && n == old(data)@.len())
                &&& final(self).bus_trace() == old(self).bus_trace()
                &&& final(data)@ == old(data)@
            },
            old(data)@.len() % 4 == 0 ==> match r {
                Ok(()) => final(self).bus_trace() == old(self).bus_trace().push(
                    BusEvent::FifoRead {
                        addr: spec_wrap16(register + 8),
                        data: final(data)@,
                    },
                ),
                Err(e) => final(self).bus_trace() == old(self).bus_trace() && e matches CanError::BusErr(_),
            },
    {
        if data.len() % 4 != 0 {
            return Err(CanError::InvalidBufferSize(data.len()));
        }
        // Skip the eight header bytes of the message object.
        let wide = (register as u32) + 8;
        proof {
            let w = wide;
            assert((w & 0xFFFF) == w % 0x10000 && (w & 0xFFFF) < 0x10000) by (bit_vector);
        }
        let payload_address = (wide & 0xFFFF) as u16;
        let cmd = cmd_bytes(payload_address, OPCODE_READ);
        let res = self.device.write_then_read(&cmd, data);
        match res {
            Ok(()) => {
                proof {
                    self.trace@ = self.trace@.push(
                        BusEvent::FifoRead { addr: payload_address, data: data@ },
                    );
                }
                Ok(())
            },
            Err(e) => Err(CanError::BusErr(SpiError::BusError(e))),
        }
    }

    /// Disables the given filter by clearing its filter-control byte.
    pub fn disable_filter(&mut self, filter_index: u8) -> (r: Result<(), CanError<D::Error>>)
        requires
            filter_index <= 31,
        ensures
            final(self).bus_trace() == old(self).bus_trace().push(
                BusEvent::RegWrite {
                    addr: spec_filter_control_register(filter_index),
                    value: 0x00,
                },
            ),
            r is Ok || r matches Err(CanError::BusErr(_)),
    {
        let filter_reg = filter_control_register_byte(filter_index);
        self.write_register(filter_reg, 0x00)
    }

    /// Enables the given filter, routing matching messages to the given
    /// FIFO: the filter is first disabled, then the FIFO index is written,
    /// then the enable bit is set on top of it.
    pub fn enable_filter(&mut self, fifo_index: u8, filter_index: u8) -> (r: Result<(), CanError<
        D::Error,
    >>)
        requires
            1 <= fifo_index <= 31,
            filter_index <= 31,
        ensures
            ({
                let pre = old(self).bus_trace();
                let t = final(self).bus_trace();
                let writes = seq![
                    BusEvent::RegWrite {
                        addr: spec_filter_control_register(filter_index),
                        value: 0x00,
                    },
                    BusEvent::RegWrite {
                        addr: spec_filter_control_register(filter_index),
                        value: fifo_index,
                    },
                    BusEvent::RegWrite {
                        addr: spec_filter_control_register(filter_index),
                        value: 0x80 | fifo_index,
                    },
                ];
                &&& pre.is_prefix_of(t)
                &&& t.len() > pre.len()
                &&& t.skip(pre.len() as int).is_prefix_of(writes)
                &&& (r is Ok ==> t == pre + writes)
                &&& (r is Err ==> r matches Err(CanError::BusErr(_)))
            }),
    {
        let ghost pre = self.trace@;
        let filter_control_reg = filter_control_register_byte(filter_index);
        // The filter must be disabled before its FIFO routing can change.
        match self.disable_filter(filter_index) {
            Ok(()) => {},
            Err(e) => {
                proof {
                    assert(pre.is_prefix_of(self.trace@));
                    assert(self.trace@.skip(pre.len() as int) =~= seq![
                        BusEvent::RegWrite {
                            addr: spec_filter_control_register(filter_index),
                            value: 0x00,
                        },
                    ]);
                }
                return Err(e);
            },
        }
        match self.write_register(filter_control_reg, fifo_index) {
            Ok(()) => {},
            Err(e) => {
                proof {
                    assert(pre.is_prefix_of(self.trace@));
                    assert(self.trace@.skip(pre.len() as int) =~= seq![
                        BusEvent::RegWrite {
                            addr: spec_filter_control_register(filter_index),
                            value: 0x00,
                        },
                        BusEvent::RegWrite {
                            addr: spec_filter_control_register(filter_index),
                            value: fifo_index,
                        },
                    ]);
                }
                return Err(e);
            },
        }
        let enable = 0x80 | fifo_index;
        match self.write_register(filter_control_reg, enable) {
            Ok(()) => {},
            Err(e) => {
                proof {
                    assert(pre.is_prefix_of(self.trace@));
                    assert(self.trace@.skip(pre.len() as int) =~= seq![
                        BusEvent::RegWrite {
                            addr: spec_filter_control_register(filter_index),
                            value: 0x00,
                        },
                        BusEvent::RegWrite {
                            addr: spec_filter_control_register(filter_index),
                            value: fifo_index,
                        },
                        BusEvent::RegWrite {
                            addr: spec_filter_control_register(filter_index),
                            value: 0x80 | fifo_index,
                        },
                    ]);
                }
                return Err(e);
            },
        }
        proof {
            assert(self.trace@ =~= pre + seq![
                BusEvent::RegWrite {
                    addr: spec_filter_control_register(filter_index),
                    value: 0x00,
                },
                BusEvent::RegWrite {
                    addr: spec_filter_control_register(filter_index),
                    value: fifo_index,
                },
                BusEvent::RegWrite {
                    addr: spec_filter_control_register(filter_index),
                    value: 0x80 | fifo_index,
                },
            ]);
            assert(self.trace@.skip(pre.len() as int) =~= seq![
                BusEvent::RegWrite {
                    addr: spec_filter_control_register(filter_index),
                    value: 0x00,
                },
                BusEvent::RegWrite {
                    addr: spec_filter_control_register(filter_index),
                    value: fifo_index,
                },
                BusEvent::RegWrite {
                    addr: spec_filter_control_register(filter_index),
                    value: 0x80 | fifo_index,
                },
            ]);
        }
        Ok(())
    }

    /// Programs a filter slot: disables the filter, writes the filter
    /// object and mask words, then writes the filter-control byte enabling
    /// the filter with matches routed to the RX FIFO.
    pub fn set_filter_object(&mut self, filter: Filter) -> (r: Result<(), CanError<D::Error>>)
        requires
            filter.wf(),
        ensures
            old(self).bus_trace().is_prefix_of(final(self).bus_trace()),
            r is Ok ==> final(self).bus_trace() == old(self).bus_trace() + seq![
                BusEvent::RegWrite {
                    addr: spec_filter_control_register(filter.index),
                    value: 0x00,
                },
                BusEvent::SfrWrite {
                    addr: spec_filter_object_register(filter.index),
                    value: filter.filter_bits.spec_as_u32(),
                },
                BusEvent::SfrWrite {
                    addr: spec_filter_mask_register(filter.index),
                    value: filter.mask_bits.spec_as_u32(),
                },
                BusEvent::RegWrite {
                    addr: spec_filter_control_register(filter.index),
                    value: 0x81,
                },
            ],
            r is Err ==> r matches Err(CanError::BusErr(_)),
    {
        let ghost pre = self.trace@;
        let filter_object_reg = filter_object_register(filter.index);
        let filter_mask_reg = filter_mask_register(filter.index);
        match self.disable_filter(filter.index) {
            Ok(()) => {},
            Err(e) => {
                proof {
                    assert(pre.is_prefix_of(self.trace@));
                }
                return Err(e);
            },
        }
        let filter_value = filter.filter_bits.as_u32();
        let mask_value = filter.mask_bits.as_u32();
        match self.write32(filter_object_reg, filter_value) {
            Ok(()) => {},
            Err(e) => {
                proof {
                    assert(pre.is_prefix_of(self.trace@));
                }
                return Err(e);
            },
        }
        match self.write32(filter_mask_reg, mask_value) {
            Ok(()) => {},
            Err(e) => {
                proof {
                    assert(pre.is_prefix_of(self.trace@));
                }
                return Err(e);
            },
        }
        let filter_control_reg = filter_control_register_byte(filter.index);
        match self.write_register(filter_control_reg, 0x81) {
            Ok(()) => {},
            Err(e) => {
                proof {
                    assert(pre.is_prefix_of(self.trace@));
                }
                return Err(e);
            },
        }
        proof {
            assert(self.trace@ =~= pre + seq![
                BusEvent::RegWrite {
                    addr: spec_filter_control_register(filter.index),
                    value: 0x00,
                },
                BusEvent::SfrWrite {
                    addr: spec_filter_object_register(filter.index),
                    value: filter.filter_bits.spec_as_u32(),
                },
                BusEvent::SfrWrite {
                    addr: spec_filter_mask_register(filter.index),
                    value: filter.mask_bits.spec_as_u32(),
                },
                BusEvent::RegWrite {
                    addr: spec_filter_control_register(filter.index),
                    value: 0x81,
                },
            ]);
        }
        Ok(())
    }

    /// Reads the injected clock, recording the reading in the trace; a
    /// failed reading is recorded as well and surfaces as `ClockError`.
    fn clock_now<CLK: Clock>(&mut self, clock: &mut CLK) -> (r: Result<u64, CanError<D::Error>>)
        ensures
            match r {
                Ok(v) => final(self).bus_trace() == old(self).bus_trace().push(
                    BusEvent::ClockRead { value: v },
                ),
                Err(e) => final(self).bus_trace() == old(self).bus_trace().push(
                    BusEvent::ClockFault,
                ) && e == CanError::<D::Error>::ClockError,
            },
    {
        match clock.try_now() {
            Ok(t) => {
                proof {
                    self.trace@ = self.trace@.push(BusEvent::ClockRead { value: t });
                }
                Ok(t)
            },
            Err(_) => {
                proof {
                    self.trace@ = self.trace@.push(BusEvent::ClockFault);
                }
                Err(CanError::ClockError)
            },
        }
    }

    /// Requests the given operation mode, aborting all running
    /// transactions, and polls the operation status until the mode is
    /// reached or two milliseconds have passed on the injected clock. The
    /// appended trace is the mode-request write, the starting clock
    /// reading, then one status read and one clock reading per poll; on
    /// success the last status read decoded to the requested mode.
    /// `ClockError` comes exactly when a reading could not be produced or
    /// the deadline does not fit in the tick counter; the given timeout
    /// error comes only when the last reading exceeded the start by more
    /// than the deadline (or, beyond any feasible run, when the poll
    /// budget ran out); `BusErr` when a transfer fails.
    #[verifier::loop_isolation(false)]
    fn enable_mode<CLK: Clock>(
        &mut self,
        mode: OperationMode,
        clock: &mut CLK,
        timeout_error: CanError<D::Error>,
    ) -> (r: Result<(), CanError<D::Error>>)
        requires
            timeout_error matches CanError::ConfigurationModeTimeout || timeout_error
                matches CanError::RequestModeTimeout,
        ensures
            ({
                let pre = old(self).bus_trace();
                let t = final(self).bus_trace();
                let s = t.skip(pre.len() as int + 1);
                &&& pre.is_prefix_of(t)
                &&& t.len() > pre.len()
                &&& t[pre.len() as int] == spec_mode_request_write(mode)
                &&& spec_mode_poll_events(s)
                &&& (r is Ok ==> spec_mode_polls_reached(s, mode))
                &&& (r == Err::<(), CanError<D::Error>>(CanError::ClockError)
                    <==> spec_clock_gave_out(s))
                &&& (r == Err::<(), CanError<D::Error>>(timeout_error) ==> {
                    ||| (s[0] matches BusEvent::ClockRead { value: start } && (s.last()
                        matches BusEvent::ClockRead { value } && value > start
                        + MODE_CHANGE_TIMEOUT_US))
                    ||| s.len() >= POLL_LIMIT
                })
                &&& (r is Err ==> {
                    let e = r->Err_0;
                    ||| e == timeout_error
                    ||| e == CanError::<D::Error>::ClockError
                    ||| e matches CanError::BusErr(_)
                })
            }),
    {
        let ghost pre = self.trace@;
        let mode_bits = mode.bits();
        let request = mode_bits | 0x08;
        let write_result = self.write_register(REGISTER_C1CON + 3, request);
        proof {
            assert(pre.is_prefix_of(self.trace@));
            assert(self.trace@.skip(pre.len() as int + 1) =~= Seq::<BusEvent>::empty());
        }
        match write_result {
            Ok(()) => {},
            Err(e) => {
                return Err(e);
            },
        }
        let ghost after_request = self.trace@;
        let start = match self.clock_now(clock) {
            Ok(t) => t,
            Err(e) => {
                proof {
                    assert(self.trace@.skip(pre.len() as int + 1) =~= seq![BusEvent::ClockFault]);
                }
                return Err(e);
            },
        };
        proof {
            assert(self.trace@.skip(pre.len() as int + 1) =~= seq![
                BusEvent::ClockRead { value: start },
            ]);
        }
        if start > u64::MAX - MODE_CHANGE_TIMEOUT_US {
            return Err(CanError::ClockError);
        }
        let deadline = start + MODE_CHANGE_TIMEOUT_US;
        let mut fuel: u64 = POLL_LIMIT;
        loop
            invariant
                pre.is_prefix_of(self.trace@),
                self.trace@.len() >= pre.len() + 2,
                self.trace@[pre.len() as int] == spec_mode_request_write(mode),
                self.trace@[pre.len() as int + 1] == (BusEvent::ClockRead { value: start }),
                spec_mode_poll_events(self.trace@.skip(pre.len() as int + 1)),
                spec_is_clock_read(self.trace@.last()),
                start <= u64::MAX - MODE_CHANGE_TIMEOUT_US,
                deadline == start + MODE_CHANGE_TIMEOUT_US,
                fuel <= POLL_LIMIT,
                self.trace@.len() - (pre.len() + 2) == 2 * (POLL_LIMIT - fuel),
                self.bus_trace() == self.trace@,
            decreases fuel,
        {
            if fuel == 0 {
                return Err(timeout_error);
            }
            fuel = fuel - 1;
            let ghost before = self.trace@;
            let status = match self.read_operation_status() {
                Ok(st) => st,
                Err(e) => {
                    return Err(e);
                },
            };
            proof {
                assert(self.trace@.skip(pre.len() as int + 1) =~= before.skip(
                    pre.len() as int + 1,
                ).push(self.trace@.last()));
            }
            let ghost after_read = self.trace@;
            let current = match self.clock_now(clock) {
                Ok(t) => t,
                Err(e) => {
                    proof {
                        assert(self.trace@.skip(pre.len() as int + 1) =~= after_read.skip(
                            pre.len() as int + 1,
                        ).push(BusEvent::ClockFault));
                    }
                    return Err(e);
                },
            };
            proof {
                assert(self.trace@.skip(pre.len() as int + 1) =~= after_read.skip(
                    pre.len() as int + 1,
                ).push(self.trace@.last()));
                assert(self.trace@.skip(pre.len() as int + 1)[self.trace@.len() as int
                    - pre.len() - 3] == after_read.last());
            }
            // The mode test comes before the deadline test: a poll that
            // sees the target succeeds even if the deadline has just
            // passed.
            if status.mode == mode {
                return Ok(());
            }
            if current > deadline {
                return Err(timeout_error);
            }
        }
    }

    /// Configures the controller: enters configuration mode, writes the
    /// oscillator byte, the nominal bit-time word, the RX and TX FIFO
    /// control bytes, enables filter zero routed to the RX FIFO, and
    /// finally requests the configured target mode. Each step's error
    /// surfaces immediately, with no bus operation after the failing one;
    /// nothing is rolled back.
    #[verifier::rlimit(100)]
    pub fn configure<CLK: Clock>(&mut self, config: &Configuration, clock: &mut CLK) -> (r: Result<
        (),
        CanError<D::Error>,
    >)
        ensures
            old(self).bus_trace().is_prefix_of(final(self).bus_trace()),
            final(self).bus_trace().len() > old(self).bus_trace().len(),
            final(self).bus_trace()[old(self).bus_trace().len() as int]
                == spec_mode_request_write(OperationMode::Configuration),
            r is Ok ==> exists|p1: Seq<BusEvent>, p2: Seq<BusEvent>|
                {
                    &&& spec_configure_full_trace(
                        old(self).bus_trace(),
                        final(self).bus_trace(),
                        *config,
                        p1,
                        p2,
                    )
                    &&& spec_mode_polls_reached(p2, config.mode.spec_to_operation_mode())
                },
            r == Err::<(), CanError<D::Error>>(CanError::ConfigurationModeTimeout) ==> exists|
                p1: Seq<BusEvent>,
            |
                spec_configure_entry_trace(old(self).bus_trace(), final(self).bus_trace(), p1),
            r == Err::<(), CanError<D::Error>>(CanError::RequestModeTimeout) ==> exists|
                p1: Seq<BusEvent>,
                p2: Seq<BusEvent>,
            |
                spec_configure_full_trace(
                    old(self).bus_trace(),
                    final(self).bus_trace(),
                    *config,
                    p1,
                    p2,
                ),
            r == Err::<(), CanError<D::Error>>(CanError::ClockError) ==> {
                ||| exists|p1: Seq<BusEvent>|
                    spec_configure_entry_trace(old(self).bus_trace(), final(self).bus_trace(), p1)
                        && spec_clock_gave_out(p1)
                ||| exists|p1: Seq<BusEvent>, p2: Seq<BusEvent>|
                    spec_configure_full_trace(
                        old(self).bus_trace(),
                        final(self).bus_trace(),
                        *config,
                        p1,
                        p2,
                    ) && spec_clock_gave_out(p2)
            },
            r matches Err(CanError::BusErr(_)) ==> {
                ||| exists|p1: Seq<BusEvent>|
                    spec_configure_entry_trace(old(self).bus_trace(), final(self).bus_trace(), p1)
                ||| exists|p1: Seq<BusEvent>, w: Seq<BusEvent>|
                    spec_configure_partial_writes_trace(
                        old(self).bus_trace(),
                        final(self).bus_trace(),
                        *config,
                        p1,
                        w,
                    )
                ||| exists|p1: Seq<BusEvent>, p2: Seq<BusEvent>|
                    spec_configure_full_trace(
                        old(self).bus_trace(),
                        final(self).bus_trace(),
                        *config,
                        p1,
                        p2,
                    )
            },
            r is Err ==> {
                let e = r->Err_0;
                ||| e == CanError::<D::Error>::ConfigurationModeTimeout
                ||| e == CanError::<D::Error>::RequestModeTimeout
                ||| e == CanError::<D::Error>::ClockError
                ||| e matches CanError::BusErr(_)
            },
    {
        let ghost pre = self.trace@;
        match self.enable_mode(OperationMode::Configuration, clock, CanError::ConfigurationModeTimeout) {
            Ok(()) => {},
            Err(e) => {
                proof {
                    let p1 = self.trace@.skip(pre.len() as int + 1);
                    assert(self.trace@ =~= pre + seq![
                        spec_mode_request_write(OperationMode::Configuration),
                    ] + p1);
                    assert(spec_configure_entry_trace(pre, self.trace@, p1));
                }
                return Err(e);
            },
        }
        let ghost p1 = self.trace@.skip(pre.len() as int + 1);
        proof {
            assert(self.trace@ =~= pre + seq![
                spec_mode_request_write(OperationMode::Configuration),
            ] + p1);
        }
        let ghost base = self.trace@;

        match self.write_register(REGISTER_OSC, config.clock.as_register()) {
            Ok(()) => {},
            Err(e) => {
                proof {
                    let w = spec_configuration_writes(*config).take(1);
                    assert(w =~= spec_configuration_writes(*config).subrange(0, 1));
                    assert(w.is_prefix_of(spec_configuration_writes(*config)));
                    assert(self.trace@ =~= pre + seq![
                        spec_mode_request_write(OperationMode::Configuration),
                    ] + p1 + w);
                    assert(spec_configure_partial_writes_trace(pre, self.trace@, *config, p1, w));
                }
                return Err(e);
            },
        }
        let nbt_values = config.bit_rate.calculate_values();
        let nbt_reg = C1NBTCFG::from_bytes(nbt_values).as_u32();
        proof {
            assert(nbt_reg == spec_nbt_word(config.bit_rate));
        }
        match self.write32(REGISTER_C1NBTCFG, nbt_reg) {
            Ok(()) => {},
            Err(e) => {
                proof {
                    let w = spec_configuration_writes(*config).take(2);
                    assert(w =~= spec_configuration_writes(*config).subrange(0, 2));
                    assert(w.is_prefix_of(spec_configuration_writes(*config)));
                    assert(self.trace@ =~= pre + seq![
                        spec_mode_request_write(OperationMode::Configuration),
                    ] + p1 + w);
                    assert(spec_configure_partial_writes_trace(pre, self.trace@, *config, p1, w));
                }
                return Err(e);
            },
        }
        let rx_control = fifo_control_register(FIFO_RX_INDEX);
        match self.write_register(rx_control + 3, config.fifo.as_rx_register_3()) {
            Ok(()) => {},
            Err(e) => {
                proof {
                    let w = spec_configuration_writes(*config).take(3);
                    assert(w =~= spec_configuration_writes(*config).subrange(0, 3));
                    assert(w.is_prefix_of(spec_configuration_writes(*config)));
                    assert(self.trace@ =~= pre + seq![
                        spec_mode_request_write(OperationMode::Configuration),
                    ] + p1 + w);
                    assert(spec_configure_partial_writes_trace(pre, self.trace@, *config, p1, w));
                }
                return Err(e);
            },
        }
        let tx_control = fifo_control_register(FIFO_TX_INDEX);
        match self.write_register(tx_control + 2, config.fifo.as_tx_register_2()) {
            Ok(()) => {},
            Err(e) => {
                proof {
                    let w = spec_configuration_writes(*config).take(4);
                    assert(w =~= spec_configuration_writes(*config).subrange(0, 4));
                    assert(w.is_prefix_of(spec_configuration_writes(*config)));
                    assert(self.trace@ =~= pre + seq![
                        spec_mode_request_write(OperationMode::Configuration),
                    ] + p1 + w);
                    assert(spec_configure_partial_writes_trace(pre, self.trace@, *config, p1, w));
                }
                return Err(e);
            },
        }
        match self.write_register(tx_control + 3, config.fifo.as_tx_register_3()) {
            Ok(()) => {},
            Err(e) => {
                proof {
                    let w = spec_configuration_writes(*config).take(5);
                    assert(w =~= spec_configuration_writes(*config).subrange(0, 5));
                    assert(w.is_prefix_of(spec_configuration_writes(*config)));
                    assert(self.trace@ =~= pre + seq![
                        spec_mode_request_write(OperationMode::Configuration),
                    ] + p1 + w);
                    assert(spec_configure_partial_writes_trace(pre, self.trace@, *config, p1, w));
                }
                return Err(e);
            },
        }
        match self.write_register(tx_control, config.fifo.as_tx_register_0()) {
            Ok(()) => {},
            Err(e) => {
                proof {
                    let w = spec_configuration_writes(*config).take(6);
                    assert(w =~= spec_configuration_writes(*config).subrange(0, 6));
                    assert(w.is_prefix_of(spec_configuration_writes(*config)));
                    assert(self.trace@ =~= pre + seq![
                        spec_mode_request_write(OperationMode::Configuration),
                    ] + p1 + w);
                    assert(spec_configure_partial_writes_trace(pre, self.trace@, *config, p1, w));
                }
                return Err(e);
            },
        }
        let ghost before_filter = self.trace@;
        match self.enable_filter(FIFO_RX_INDEX, 0) {
            Ok(()) => {},
            Err(e) => {
                proof {
                    assert((0x80u8 | 1u8) == 0x81u8) by (bit_vector);
                    let filter_writes = self.trace@.skip(before_filter.len() as int);
                    let w = spec_configuration_writes(*config).take(6) + filter_writes;
                    assert(spec_configuration_writes(*config).take(6)
                        =~= spec_configuration_writes(*config).subrange(0, 6));
                    assert(w =~= spec_configuration_writes(*config).subrange(
                        0,
                        6 + filter_writes.len() as int,
                    ));
                    assert(w.is_prefix_of(spec_configuration_writes(*config)));
                    assert(before_filter =~= pre + seq![
                        spec_mode_request_write(OperationMode::Configuration),
                    ] + p1 + spec_configuration_writes(*config).take(6));
                    assert(self.trace@ =~= before_filter + filter_writes);
                    assert(self.trace@ =~= pre + seq![
                        spec_mode_request_write(OperationMode::Configuration),
                    ] + p1 + w);
                    assert(spec_configure_partial_writes_trace(pre, self.trace@, *config, p1, w));
                }
                return Err(e);
            },
        }
        proof {
            assert((0x80u8 | 1u8) == 0x81u8) by (bit_vector);
            assert(self.trace@ =~= base + spec_configuration_writes(*config));
        }
        let ghost mid = self.trace@;

        match self.enable_mode(config.mode.to_operation_mode(), clock, CanError::RequestModeTimeout) {
            Ok(()) => {},
            Err(e) => {
                proof {
                    let p2 = self.trace@.skip(mid.len() as int + 1);
                    assert(self.trace@ =~= pre + seq![
                        spec_mode_request_write(OperationMode::Configuration),
                    ] + p1 + spec_configuration_writes(*config) + seq![
                        spec_mode_request_write(config.mode.spec_to_operation_mode()),
                    ] + p2);
                    assert(spec_configure_full_trace(pre, self.trace@, *config, p1, p2));
                }
                return Err(e);
            },
        }
        let ghost p2 = self.trace@.skip(mid.len() as int + 1);
        proof {
            assert(self.trace@ =~= pre + seq![
                spec_mode_request_write(OperationMode::Configuration),
            ] + p1 + spec_configuration_writes(*config) + seq![
                spec_mode_request_write(config.mode.spec_to_operation_mode()),
            ] + p2);
            assert(spec_configure_full_trace(pre, self.trace@, *config, p1, p2));
        }
        Ok(())
    }

    /// Polls the first status byte of a FIFO until its not-full/not-empty
    /// flag is set. When not blocking, a single clear read fails with the
    /// given error at once.
    #[verifier::loop_isolation(false)]
    fn poll_fifo_flag(
        &mut self,
        status_reg: u16,
        blocking: bool,
        full_error: CanError<D::Error>,
    ) -> (r: Result<(), CanError<D::Error>>)
        ensures
            ({
                let pre = old(self).bus_trace();
                let t = final(self).bus_trace();
                &&& pre.is_prefix_of(t)
                &&& forall|i: int|
                    pre.len() <= i < t.len() ==> spec_is_reg_read(#[trigger] t[i], status_reg)
                &&& (r is Ok ==> spec_flag_poll_seq(t.skip(pre.len() as int), status_reg))
                &&& (r is Err ==> {
                    let e = r->Err_0;
                    ||| {
                        &&& e == full_error
                        &&& forall|i: int|
                            pre.len() <= i < t.len() ==> !spec_read_flag_set(
                                #[trigger] t[i],
                                status_reg,
                            )
                        &&& (!blocking ==> t.len() == pre.len() + 1)
                        &&& (blocking ==> t.len() >= pre.len() + POLL_LIMIT)
                    }
                    ||| e matches CanError::BusErr(_)
                })
            }),
    {
        let ghost pre = self.trace@;
        let mut fuel: u64 = POLL_LIMIT;
        loop
            invariant
                pre.is_prefix_of(self.trace@),
                forall|i: int|
                    pre.len() <= i < self.trace@.len() ==> spec_is_reg_read(
                        #[trigger] self.trace@[i],
                        status_reg,
                    ) && !spec_read_flag_set(self.trace@[i], status_reg),
                !blocking ==> self.trace@ == pre,
                fuel <= POLL_LIMIT,
                self.trace@.len() - pre.len() == POLL_LIMIT - fuel,
            decreases fuel,
        {
            let ghost before = self.trace@;
            match self.fifo_tfnrfnif(status_reg) {
                Ok(true) => {
                    proof {
                        assert forall|i: int|
                            pre.len() <= i < self.trace@.len() implies spec_is_reg_read(
                            #[trigger] self.trace@[i],
                            status_reg,
                        ) by {
                            if i < self.trace@.len() - 1 {
                                assert(self.trace@[i] == before[i]);
                            }
                        }
                        assert(self.trace@.skip(pre.len() as int) =~= before.skip(
                            pre.len() as int,
                        ).push(self.trace@.last()));
                        assert(spec_flag_poll_seq(self.trace@.skip(pre.len() as int), status_reg));
                    }
                    return Ok(());
                },
                Ok(false) => {
                    proof {
                        assert forall|i: int|
                            pre.len() <= i < self.trace@.len() implies spec_is_reg_read(
                            #[trigger] self.trace@[i],
                            status_reg,
                        ) && !spec_read_flag_set(self.trace@[i], status_reg) by {
                            if i < self.trace@.len() - 1 {
                                assert(self.trace@[i] == before[i]);
                            }
                        }
                    }
                    if !blocking {
                        return Err(full_error);
                    }
                    if fuel == 0 {
                        return Err(full_error);
                    }
                    fuel = fuel - 1;
                },
                Err(e) => {
                    return Err(e);
                },
            }
        }
    }

    /// Transmits a CAN message through the TX FIFO: waits (or checks once,
    /// when not blocking) for space, checks the payload length against the
    /// current operation mode, reads the FIFO user address, writes the
    /// message object to RAM, requests transmission, and, when blocking,
    /// waits until every queued message has been sent. A message object is
    /// written to RAM only after the not-full flag has been observed set,
    /// and only to an address inside the chip's message RAM.
    #[verifier::loop_isolation(false)]
    pub fn transmit<T: MessageType>(&mut self, message: &TxMessage<T>, blocking: bool) -> (r:
        Result<(), CanError<D::Error>>)
        requires
            message.wf(),
        ensures
            old(self).bus_trace().is_prefix_of(final(self).bus_trace()),
            forall|i: int|
                old(self).bus_trace().len() <= i < final(self).bus_trace().len() && ((
                #[trigger] final(self).bus_trace()[i]) matches BusEvent::FifoWrite { .. })
                    ==> exists|j: int|
                    old(self).bus_trace().len() <= j < i && spec_read_flag_set(
                        #[trigger] final(self).bus_trace()[j],
                        0x06C,
                    ),
            r is Ok ==> spec_transmit_ok_trace(
                old(self).bus_trace(),
                final(self).bus_trace(),
                message.header,
                bytes_content(message.buff),
                message.message_type.spec_max_len(),
                blocking,
            ),
            r == Err::<(), CanError<D::Error>>(CanError::TxFifoFullErr) ==> {
                let pre = old(self).bus_trace();
                let t = final(self).bus_trace();
                &&& forall|i: int|
                    pre.len() <= i < t.len() ==> spec_is_reg_read(#[trigger] t[i], 0x06C)
                        && !spec_read_flag_set(t[i], 0x06C)
                &&& (!blocking ==> t.len() == pre.len() + 1)
                &&& (blocking ==> t.len() >= pre.len() + POLL_LIMIT)
            },
            r matches Err(CanError::InvalidPayloadLength(n)) ==> {
                let t = final(self).bus_trace();
                &&& n == bytes_content(message.buff).len()
                &&& n > 8
                &&& (t.last() matches BusEvent::RegRead { addr, value } && addr == 0x002
                    && OperationMode::spec_from_register(value) != OperationMode::NormalCANFD)
            },
            r matches Err(CanError::InvalidRamAddress(a)) ==> {
                let t = final(self).bus_trace();
                &&& (t.last() matches BusEvent::SfrRead { addr, value } && addr == 0x070 && a
                    == spec_ram_address(value))
                &&& !(0x400 <= a && a + message.message_type.spec_max_len() <= 0xBFF)
            },
            r is Err ==> {
                let e = r->Err_0;
                ||| e == CanError::<D::Error>::TxFifoFullErr
                ||| e matches CanError::InvalidPayloadLength(_)
                ||| e matches CanError::InvalidRamAddress(_)
                ||| e matches CanError::BusErr(_)
            },
    {
        let ghost pre = self.trace@;
        let fifo_status_reg = fifo_status_register(FIFO_TX_INDEX);
        match self.poll_fifo_flag(fifo_status_reg, blocking, CanError::TxFifoFullErr) {
            Ok(()) => {},
            Err(e) => {
                return Err(e);
            },
        }
        let ghost polls = self.trace@.skip(pre.len() as int);
        let ghost flag_idx = self.trace@.len() - 1;
        let ghost tpoll = self.trace@;
        proof {
            assert(polls.last() == tpoll[flag_idx]);
            assert(spec_read_flag_set(tpoll[flag_idx], 0x06C));
        }

        // The payload length must be consistent with the CAN operation mode.
        let status_byte = match self.read_register(REGISTER_C1CON + 2) {
            Ok(v) => v,
            Err(e) => {
                return Err(e);
            },
        };
        let operation_status = OperationStatus::from_register(status_byte);
        let payload_len = message.get_payload().len();
        if payload_len > 8 && !(operation_status.mode == OperationMode::NormalCANFD) {
            return Err(CanError::InvalidPayloadLength(payload_len));
        }
        // The next free message object in the TX FIFO; not meaningful in
        // configuration mode.
        let user_address = match self.read32(fifo_user_address_register(FIFO_TX_INDEX)) {
            Ok(v) => v,
            Err(e) => {
                return Err(e);
            },
        };
        let address = ram_address(user_address);
        let fifo_control_reg1 = fifo_control_register(FIFO_TX_INDEX) + 1;
        match self.write_fifo(address, message) {
            Ok(()) => {},
            Err(e) => {
                proof {
                    assert(tpoll.is_prefix_of(self.trace@));
                    lemma_tx_fifo_write_flagged(pre, tpoll, self.trace@, flag_idx);
                }
                return Err(e);
            },
        }
        proof {
            assert(tpoll.is_prefix_of(self.trace@));
            lemma_tx_fifo_write_flagged(pre, tpoll, self.trace@, flag_idx);
        }
        // Request transmission and increment the FIFO head.
        match self.write_register(fifo_control_reg1, 0x03) {
            Ok(()) => {},
            Err(e) => {
                proof {
                    assert(tpoll.is_prefix_of(self.trace@));
                    lemma_tx_fifo_write_flagged(pre, tpoll, self.trace@, flag_idx);
                }
                return Err(e);
            },
        }
        let ghost base = self.trace@;
        proof {
            assert(base =~= pre + polls + seq![
                BusEvent::RegRead { addr: 0x002, value: status_byte },
                BusEvent::SfrRead { addr: 0x070, value: user_address },
                BusEvent::FifoWrite {
                    addr: address,
                    header: spec_tx_header_bytes(message.header),
                    payload: spec_padded_payload(
                        bytes_content(message.buff),
                        message.message_type.spec_max_len(),
                    ),
                },
                BusEvent::RegWrite { addr: 0x069, value: 0x03 },
            ]);
        }
        if !blocking {
            proof {
                assert(tpoll.is_prefix_of(self.trace@));
                lemma_tx_fifo_write_flagged(pre, tpoll, self.trace@, flag_idx);
                assert(self.trace@ =~= base + Seq::<BusEvent>::empty());
                assert(spec_transmit_ok_witness(
                    pre,
                    self.trace@,
                    message.header,
                    bytes_content(message.buff),
                    message.message_type.spec_max_len(),
                    blocking,
                    polls,
                    status_byte,
                    user_address,
                    Seq::<BusEvent>::empty(),
                ));
            }
            return Ok(());
        }
        // Block until TXREQ clears: every message in the TX FIFO has been
        // transmitted.
        let mut fuel: u64 = POLL_LIMIT;
        proof {
            assert(tpoll.is_prefix_of(self.trace@));
        }
        loop
            invariant
                base.is_prefix_of(self.trace@),
                tpoll.is_prefix_of(self.trace@),
                forall|i: int|
                    base.len() <= i < self.trace@.len() ==> ((
                    #[trigger] self.trace@[i]) matches BusEvent::RegRead { addr, value } && addr
                        == 0x069 && value & 0x02 != 0),
                self.trace@.len() - base.len() == POLL_LIMIT - fuel,
            decreases fuel,
        {
            let ghost before = self.trace@;
            match self.txfifo_cleared(fifo_control_reg1) {
                Ok(cleared) => {
                    proof {
                        assert forall|i: int|
                            base.len() <= i < self.trace@.len() implies ((
                        #[trigger] self.trace@[i]) matches BusEvent::RegRead { addr, value }
                            && addr == 0x069) by {
                            if i < self.trace@.len() - 1 {
                                assert(self.trace@[i] == before[i]);
                            }
                        }
                        assert forall|i: int| 0 <= i < before.len() implies self.trace@[i]
                            == before[i] by {}
                        assert(base.is_prefix_of(self.trace@));
                        assert(tpoll.is_prefix_of(self.trace@));
                        assert(self.trace@.skip(base.len() as int) =~= before.skip(
                            base.len() as int,
                        ).push(self.trace@.last()));
                    }
                    if cleared {
                        proof {
                            assert(tpoll.is_prefix_of(self.trace@));
                            lemma_tx_fifo_write_flagged(pre, tpoll, self.trace@, flag_idx);
                            assert(self.trace@ =~= pre + polls + seq![
                                BusEvent::RegRead { addr: 0x002, value: status_byte },
                                BusEvent::SfrRead { addr: 0x070, value: user_address },
                                BusEvent::FifoWrite {
                                    addr: address,
                                    header: spec_tx_header_bytes(message.header),
                                    payload: spec_padded_payload(
                                        bytes_content(message.buff),
                                        message.message_type.spec_max_len(),
                                    ),
                                },
                                BusEvent::RegWrite { addr: 0x069, value: 0x03 },
                            ] + self.trace@.skip(base.len() as int));
                            assert(spec_txreq_wait_seq(self.trace@.skip(base.len() as int), 0x069));
                            assert(spec_transmit_ok_witness(
                                pre,
                                self.trace@,
                                message.header,
                                bytes_content(message.buff),
                                message.message_type.spec_max_len(),
                                blocking,
                                polls,
                                status_byte,
                                user_address,
                                self.trace@.skip(base.len() as int),
                            ));
                        }
                        return Ok(());
                    }
                    if fuel == 0 {
                        proof {
                            assert(tpoll.is_prefix_of(self.trace@));
                            lemma_tx_fifo_write_flagged(pre, tpoll, self.trace@, flag_idx);
                            assert(self.trace@ =~= pre + polls + seq![
                                BusEvent::RegRead { addr: 0x002, value: status_byte },
                                BusEvent::SfrRead { addr: 0x070, value: user_address },
                                BusEvent::FifoWrite {
                                    addr: address,
                                    header: spec_tx_header_bytes(message.header),
                                    payload: spec_padded_payload(
                                        bytes_content(message.buff),
                                        message.message_type.spec_max_len(),
                                    ),
                                },
                                BusEvent::RegWrite { addr: 0x069, value: 0x03 },
                            ] + self.trace@.skip(base.len() as int));
                            assert(spec_txreq_wait_seq(self.trace@.skip(base.len() as int), 0x069));
                            assert(spec_transmit_ok_witness(
                                pre,
                                self.trace@,
                                message.header,
                                bytes_content(message.buff),
                                message.message_type.spec_max_len(),
                                blocking,
                                polls,
                                status_byte,
                                user_address,
                                self.trace@.skip(base.len() as int),
                            ));
                        }
                        return Ok(());
                    }
                    proof {
                        assert forall|i: int|
                            base.len() <= i < self.trace@.len() implies ((
                        #[trigger] self.trace@[i]) matches BusEvent::RegRead { addr, value }
                            && addr == 0x069 && value & 0x02 != 0) by {
                            if i < self.trace@.len() - 1 {
                                assert(self.trace@[i] == before[i]);
                            }
                        }
                    }
                    fuel = fuel - 1;
                },
                Err(e) => {
                    proof {
                        assert(tpoll.is_prefix_of(self.trace@));
                        lemma_tx_fifo_write_flagged(pre, tpoll, self.trace@, flag_idx);
                    }
                    return Err(e);
                },
            }
        }
    }

    /// Receives a CAN message from the RX FIFO into the caller's buffer:
    /// waits (or checks once, when not blocking) for a message, reads the
    /// FIFO user address, reads the payload from RAM past the receive
    /// header, and advances the FIFO tail. The buffer length must be a
    /// multiple of four bytes and determines how many payload bytes are
    /// read.
    #[verifier::loop_isolation(false)]
    pub fn receive(&mut self, data: &mut Vec<u8>, blocking: bool) -> (r: Result<(), CanError<
        D::Error,
    >>)
        ensures
            old(self).bus_trace().is_prefix_of(final(self).bus_trace()),
            final(data)@.len() == old(data)@.len(),
            forall|i: int|
                old(self).bus_trace().len() <= i < final(self).bus_trace().len() && ((
                #[trigger] final(self).bus_trace()[i]) matches BusEvent::FifoRead { .. })
                    ==> exists|j: int|
                    old(self).bus_trace().len() <= j < i && spec_read_flag_set(
                        #[trigger] final(self).bus_trace()[j],
                        0x060,
                    ),
            r is Ok ==> spec_receive_ok_trace(
                old(self).bus_trace(),
                final(self).bus_trace(),
                final(data)@,
            ) && old(data)@.len() % 4 == 0,
            r == Err::<(), CanError<D::Error>>(CanError::RxFifoEmptyErr) ==> {
                let pre = old(self).bus_trace();
                let t = final(self).bus_trace();
                &&& forall|i: int|
                    pre.len() <= i < t.len() ==> spec_is_reg_read(#[trigger] t[i], 0x060)
                        && !spec_read_flag_set(t[i], 0x060)
                &&& (!blocking ==> t.len() == pre.len() + 1)
                &&& (blocking ==> t.len() >= pre.len() + POLL_LIMIT)
                &&& final(data)@ == old(data)@
            },
            r matches Err(CanError::InvalidBufferSize(n)) ==> {
                &&& n == old(data)@.len()
                &&& n % 4 != 0
                &&& final(data)@ == old(data)@
            },
            r is Err ==> {
                let e = r->Err_0;
                ||| e == CanError::<D::Error>::RxFifoEmptyErr
                ||| e matches CanError::InvalidBufferSize(_)
                ||| e matches CanError::BusErr(_)
            },
    {
        let ghost pre = self.trace@;
        let fifo_status_reg = fifo_status_register(FIFO_RX_INDEX);
        match self.poll_fifo_flag(fifo_status_reg, blocking, CanError::RxFifoEmptyErr) {
            Ok(()) => {},
            Err(e) => {
                return Err(e);
            },
        }
        let ghost polls = self.trace@.skip(pre.len() as int);
        let ghost flag_idx = self.trace@.len() - 1;
        let ghost tpoll = self.trace@;
        proof {
            assert(polls.last() == tpoll[flag_idx]);
            assert(spec_read_flag_set(tpoll[flag_idx], 0x060));
        }

        let user_address = match self.read32(fifo_user_address_register(FIFO_RX_INDEX)) {
            Ok(v) => v,
            Err(e) => {
                return Err(e);
            },
        };
        let address = ram_address(user_address);
        match self.read_fifo(address, data) {
            Ok(()) => {},
            Err(e) => {
                proof {
                    assert(tpoll.is_prefix_of(self.trace@));
                    lemma_rx_fifo_read_flagged(pre, tpoll, self.trace@, flag_idx);
                }
                return Err(e);
            },
        }
        proof {
            assert(tpoll.is_prefix_of(self.trace@));
            lemma_rx_fifo_read_flagged(pre, tpoll, self.trace@, flag_idx);
        }
        // Advance the FIFO tail by a single message.
        match self.write_register(fifo_control_register(FIFO_RX_INDEX) + 1, 0x01) {
            Ok(()) => {},
            Err(e) => {
                proof {
                    assert(tpoll.is_prefix_of(self.trace@));
                    lemma_rx_fifo_read_flagged(pre, tpoll, self.trace@, flag_idx);
                }
                return Err(e);
            },
        }
        proof {
            assert(tpoll.is_prefix_of(self.trace@));
            lemma_rx_fifo_read_flagged(pre, tpoll, self.trace@, flag_idx);
            assert(self.trace@ =~= pre + polls + seq![
                BusEvent::SfrRead { addr: 0x064, value: user_address },
                BusEvent::FifoRead {
                    addr: spec_wrap16(spec_ram_address(user_address) + 8),
                    data: data@,
                },
                BusEvent::RegWrite { addr: 0x05D, value: 0x01 },
            ]);
            assert(spec_receive_ok_witness(pre, self.trace@, data@, polls, user_address));
        }
        Ok(())
    }
}

/// In a trace `t` extending the poll-time trace `tp`, where the extension
/// of `tp` over `pre` consists of TX status reads whose index `flag_idx`
/// saw the not-full flag set, every FIFO write after `pre` is preceded by a
/// status read with the flag set.
proof fn lemma_tx_fifo_write_flagged(
    pre: Seq<BusEvent>,
    tp: Seq<BusEvent>,
    t: Seq<BusEvent>,
    flag_idx: int,
)
    requires
        tp.is_prefix_of(t),
        pre.len() <= flag_idx < tp.len(),
        spec_read_flag_set(tp[flag_idx], 0x06C),
        forall|i: int| pre.len() <= i < tp.len() ==> spec_is_reg_read(#[trigger] tp[i], 0x06C),
    ensures
        forall|i: int|
            pre.len() <= i < t.len() && ((#[trigger] t[i]) matches BusEvent::FifoWrite { .. })
                ==> exists|j: int| pre.len() <= j < i && spec_read_flag_set(#[trigger] t[j], 0x06C),
{
    assert forall|i: int|
        pre.len() <= i < t.len() && ((#[trigger] t[i]) matches BusEvent::FifoWrite { .. }) implies
        exists|j: int| pre.len() <= j < i && spec_read_flag_set(#[trigger] t[j], 0x06C) by {
        assert(t[flag_idx] == tp[flag_idx]);
        if i < tp.len() {
            assert(t[i] == tp[i]);
            assert(spec_is_reg_read(tp[i], 0x06C));
        } else {
            assert(pre.len() <= flag_idx < i && spec_read_flag_set(t[flag_idx], 0x06C));
        }
    }
}

/// The receive-side counterpart of `lemma_tx_fifo_write_flagged`, for FIFO
/// reads after an RX status read with the not-empty flag set.
proof fn lemma_rx_fifo_read_flagged(
    pre: Seq<BusEvent>,
    tp: Seq<BusEvent>,
    t: Seq<BusEvent>,
    flag_idx: int,
)
    requires
        tp.is_prefix_of(t),
        pre.len() <= flag_idx < tp.len(),
        spec_read_flag_set(tp[flag_idx], 0x060),
        forall|i: int| pre.len() <= i < tp.len() ==> spec_is_reg_read(#[trigger] tp[i], 0x060),
    ensures
        forall|i: int|
            pre.len() <= i < t.len() && ((#[trigger] t[i]) matches BusEvent::FifoRead { .. })
                ==> exists|j: int| pre.len() <= j < i && spec_read_flag_set(#[trigger] t[j], 0x060),
{
    assert forall|i: int|
        pre.len() <= i < t.len() && ((#[trigger] t[i]) matches BusEvent::FifoRead { .. }) implies
        exists|j: int| pre.len() <= j < i && spec_read_flag_set(#[trigger] t[j], 0x060) by {
        assert(t[flag_idx] == tp[flag_idx]);
        if i < tp.len() {
            assert(t[i] == tp[i]);
            assert(spec_is_reg_read(tp[i], 0x060));
        } else {
            assert(pre.len() <= flag_idx < i && spec_read_flag_set(t[flag_idx], 0x060));
        }
    }
}

} // verus!
