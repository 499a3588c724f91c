//! Example SPI device and clock for documentation and tests: a scripted
//! stand-in for the chip that answers the driver's transactions with
//! plausible values, and a clock handing out a fixed list of instants.

use crate::bus::{Clock, ClockError, SpiDevice};
use vstd::prelude::*;

verus! {

/// A scripted SPI device standing in for the chip: status reads report the
/// FIFOs ready, the operation mode reads configuration mode once and the
/// requested mode afterwards, user-address reads return fixed message
/// object addresses, and an eight-byte RAM read returns the bytes one
/// through eight.
pub struct ExampleSPIDevice {
    read_calls: u32,
}

impl ExampleSPIDevice {
    pub fn new() -> (r: Self) {
        ExampleSPIDevice { read_calls: 0 }
    }
}

impl Default for ExampleSPIDevice {
    fn default() -> (r: Self) {
        ExampleSPIDevice { read_calls: 0 }
    }
}

impl SpiDevice for ExampleSPIDevice {
    type Error = ();

    fn transfer_in_place(&mut self, buf: &mut [u8; 3]) -> Result<(), ()> {
        // A write command: nothing to answer.
        if buf[0] >> 4 == 0x2 {
            return Ok(());
        }
        // Register read commands.
        if buf[0] == 0x30 {
            if buf[1] == 0x02 {
                // Operation status: configuration mode on the first read,
                // normal CAN FD mode afterwards.
                if self.read_calls == 0 {
                    self.read_calls = 1;
                    *buf = [0, 0, 0b1001_0100];
                } else {
                    *buf = [0, 0, 0];
                }
                return Ok(());
            }
            if buf[1] == 0x6C {
                // TX FIFO status: not full.
                *buf = [0, 0, 0x01];
                return Ok(());
            }
            if buf[1] == 0x69 {
                // TX FIFO control: transmission request cleared.
                *buf = [0, 0, 0x00];
                return Ok(());
            }
            if buf[1] == 0x60 {
                // RX FIFO status: not empty.
                *buf = [0, 0, 0x01];
                return Ok(());
            }
        }
        Ok(())
    }

    fn write(&mut self, buf: &[u8; 6]) -> Result<(), ()> {
        Ok(())
    }

    fn write_then_read(&mut self, cmd: &[u8; 2], data: &mut Vec<u8>) -> (r: Result<(), ()>) {
        let len = data.len();
        if cmd[0] == 0x30 && cmd[1] == 0x70 && len == 4 {
            // TX FIFO user address: 0x4A2, little-endian.
            data.set(0, 0xA2);
            data.set(1, 0x04);
            data.set(2, 0x00);
            data.set(3, 0x00);
            return Ok(());
        }
        if cmd[0] == 0x30 && cmd[1] == 0x64 && len == 4 {
            // RX FIFO user address: 0x47C, little-endian.
            data.set(0, 0x7C);
            data.set(1, 0x04);
            data.set(2, 0x00);
            data.set(3, 0x00);
            return Ok(());
        }
        if len == 8 {
            // A received message payload: the bytes one through eight.
            let mut i: usize = 0;
            while i < 8
                invariant
                    i <= 8,
                    data@.len() == len,
                    len == 8,
                decreases 8 - i,
            {
                let b = (i + 1) as u8;
                data.set(i, b);
                i = i + 1;
            }
        }
        Ok(())
    }

    fn write_then_write(&mut self, cmd: &[u8; 10], data: &Vec<u8>) -> Result<(), ()> {
        Ok(())
    }
}

/// A clock handing out a fixed list of instants, in microseconds; once the
/// list is exhausted, readings fail.
pub struct ExampleClock {
    /// Instants still to hand out, first reading first
    pub next_instants: Vec<u64>,
}

impl ExampleClock {
    /// A clock handing out the given instants in order.
    pub fn new(next_instants: Vec<u64>) -> (r: Self)
        ensures
            r.next_instants == next_instants,
    {
        ExampleClock { next_instants }
    }
}

impl Default for ExampleClock {
    /// Four instants: one start and one deadline check for each of the two
    /// mode transitions of a configure call.
    fn default() -> (r: Self)
        ensures
            r.next_instants@ == seq![100u64, 200u64, 10_000u64, 10_100u64],
    {
        let mut next_instants: Vec<u64> = Vec::new();
        next_instants.push(100);
        next_instants.push(200);
        next_instants.push(10_000);
        next_instants.push(10_100);
        proof {
            assert(next_instants@ =~= seq![100u64, 200u64, 10_000u64, 10_100u64]);
        }
        ExampleClock { next_instants }
    }
}

impl Clock for ExampleClock {
    /// Hands out the first remaining instant and consumes it; fails once
    /// the list is exhausted.
    fn try_now(&mut self) -> (r: Result<u64, ClockError>)
        ensures
            old(self).next_instants@.len() == 0 ==> r == Err::<u64, ClockError>(
                ClockError::Unspecified,
            ) && final(self).next_instants@ == old(self).next_instants@,
            old(self).next_instants@.len() > 0 ==> r == Ok::<u64, ClockError>(
                old(self).next_instants@[0],
            ) && final(self).next_instants@ == old(self).next_instants@.skip(1),
    {
        if self.next_instants.len() == 0 {
            return Err(ClockError::Unspecified);
        }
        let t = self.next_instants.remove(0);
        proof {
            assert(self.next_instants@ =~= old(self).next_instants@.skip(1));
        }
        Ok(t)
    }
}

} // verus!
