//! Injected capabilities of the driver: the SPI device and the monotonic
//! clock, together with the ghost model of bus transactions and the 32-bit
//! word byte-order helpers of the wire format.

use vstd::prelude::*;

verus! {

/// The little-endian byte sequence of a 32-bit word.
pub open spec fn spec_u32_le(w: u32) -> Seq<u8> {
    seq![
        (w & 0xFF) as u8,
        ((w >> 8) & 0xFF) as u8,
        ((w >> 16) & 0xFF) as u8,
        ((w >> 24) & 0xFF) as u8,
    ]
}

/// The big-endian byte sequence of a 32-bit word.
pub open spec fn spec_u32_be(w: u32) -> Seq<u8> {
    seq![
        ((w >> 24) & 0xFF) as u8,
        ((w >> 16) & 0xFF) as u8,
        ((w >> 8) & 0xFF) as u8,
        (w & 0xFF) as u8,
    ]
}

/// The 32-bit word read from four bytes in little-endian order.
pub open spec fn spec_u32_of_le(b0: u8, b1: u8, b2: u8, b3: u8) -> u32 {
    (b0 as u32) | ((b1 as u32) << 8) | ((b2 as u32) << 16) | ((b3 as u32) << 24)
}

/// Splits a 32-bit word into its little-endian bytes.
pub fn u32_le_bytes(w: u32) -> (r: [u8; 4])
    ensures
        r@ == spec_u32_le(w),
{
    proof {
        assert((w & 0xFF) < 256 && ((w >> 8) & 0xFF) < 256 && ((w >> 16) & 0xFF) < 256 && ((w
            >> 24) & 0xFF) < 256) by (bit_vector);
    }
    let r = [(w & 0xFF) as u8, ((w >> 8) & 0xFF) as u8, ((w >> 16) & 0xFF) as u8, ((w >> 24)
        & 0xFF) as u8];
    proof {
        assert(r@ =~= spec_u32_le(w));
    }
    r
}

/// Splits a 32-bit word into its big-endian bytes.
pub fn u32_be_bytes(w: u32) -> (r: [u8; 4])
    ensures
        r@ == spec_u32_be(w),
{
    proof {
        assert((w & 0xFF) < 256 && ((w >> 8) & 0xFF) < 256 && ((w >> 16) & 0xFF) < 256 && ((w
            >> 24) & 0xFF) < 256) by (bit_vector);
    }
    let r = [((w >> 24) & 0xFF) as u8, ((w >> 16) & 0xFF) as u8, ((w >> 8) & 0xFF) as u8, (w
        & 0xFF) as u8];
    proof {
        assert(r@ =~= spec_u32_be(w));
    }
    r
}

/// Assembles a 32-bit word from four bytes in little-endian order.
pub fn u32_of_le_bytes(b0: u8, b1: u8, b2: u8, b3: u8) -> (r: u32)
    ensures
        r == spec_u32_of_le(b0, b1, b2, b3),
{
    (b0 as u32) | ((b1 as u32) << 8) | ((b2 as u32) << 16) | ((b3 as u32) << 24)
}

/// Splitting a word into its little-endian bytes and assembling them again
/// yields the word back.
pub proof fn lemma_u32_le_round_trip(w: u32)
    ensures
        spec_u32_of_le(
            spec_u32_le(w)[0],
            spec_u32_le(w)[1],
            spec_u32_le(w)[2],
            spec_u32_le(w)[3],
        ) == w,
{
    assert(((w & 0xFF) as u8 as u32) | ((((w >> 8) & 0xFF) as u8 as u32) << 8) | ((((w >> 16)
        & 0xFF) as u8 as u32) << 16) | ((((w >> 24) & 0xFF) as u8 as u32) << 24) == w) by (
    bit_vector);
}

/// One operation the driver performed on its injected capabilities, as
/// recorded in the ghost trace of the controller handle: a bus transaction,
/// or a reading of the monotonic clock. Register addresses are the chip's
/// byte addresses; the recorded values are the bytes on the wire after the
/// two-byte command word.
pub enum BusEvent {
    /// Three-byte full-duplex exchange reading one register byte
    RegRead { addr: u16, value: u8 },
    /// Three-byte exchange writing one register byte
    RegWrite { addr: u16, value: u8 },
    /// Command plus four clocked-in bytes reading a 32-bit SFR,
    /// assembled little-endian
    SfrRead { addr: u16, value: u32 },
    /// Command plus the value in little-endian order writing a 32-bit SFR
    SfrWrite { addr: u16, value: u32 },
    /// Single two-phase transaction writing a message object to RAM:
    /// command plus eight header bytes, then the padded payload bytes
    FifoWrite { addr: u16, header: Seq<u8>, payload: Seq<u8> },
    /// Single two-phase transaction reading payload bytes from RAM
    FifoRead { addr: u16, data: Seq<u8> },
    /// Reset command
    Reset,
    /// A reading of the injected monotonic clock, in microsecond ticks
    ClockRead { value: u64 },
    /// A reading the injected clock could not produce
    ClockFault,
}

/// The SPI device the controller is attached to, owned by the driver
/// handle. An implementation executes each call as a single transaction
/// under one chip-select assertion. The three fixed-size operations place
/// no obligation on an implementation; `write_then_read` must fill exactly
/// the caller's buffer.
pub trait SpiDevice {
    type Error;

    /// Full-duplex three-byte exchange: the buffer is sent and overwritten
    /// with the received bytes.
    fn transfer_in_place(&mut self, buf: &mut [u8; 3]) -> Result<(), Self::Error>;

    /// Single write phase of six bytes (command word plus a 32-bit value).
    fn write(&mut self, buf: &[u8; 6]) -> Result<(), Self::Error>;

    /// One transaction of two phases: write the two command bytes, then
    /// read `data.len()` bytes into `data`.
    fn write_then_read(&mut self, cmd: &[u8; 2], data: &mut Vec<u8>) -> (r: Result<
        (),
        Self::Error,
    >)
        ensures
            final(data)@.len() == old(data)@.len(),
    ;

    /// One transaction of two phases: write the ten command-plus-header
    /// bytes, then write the payload bytes.
    fn write_then_write(&mut self, cmd: &[u8; 10], data: &Vec<u8>) -> Result<(), Self::Error>;
}

/// Failure of the injected clock.
#[derive(Copy, Clone, Debug, PartialEq, Eq, Structural)]
pub enum ClockError {
    /// The clock could not produce a reading
    Unspecified,
}

/// The monotonic clock used for mode-change deadlines. A reading counts
/// microseconds from an arbitrary epoch.
pub trait Clock {
    /// Returns the current time in microsecond ticks, or fails if the clock
    /// cannot produce a reading.
    fn try_now(&mut self) -> Result<u64, ClockError>;
}

} // verus!
