use bytes::Bytes;
use mcp2517::bus::{Clock, ClockError, SpiDevice};
use mcp2517::can::{CanError, MCP2517};
use mcp2517::config::{
    BitRateConfig, CanBaudRate, ClockConfiguration, ClockOutputDivisor, Configuration,
    FifoConfiguration, PLLSetting, PayloadSize, RequestMode, RetransmissionAttempts, SysClk,
    SystemClockDivisor,
};
use mcp2517::example::{ExampleClock, ExampleSPIDevice};
use mcp2517::filter::Filter;
use mcp2517::id::Id;
use mcp2517::message::{Can20, CanFd, MessageType, TxMessage};
use mcp2517::status::OperationMode;
use std::cell::RefCell;
use std::rc::Rc;

const EXTENDED_ID: u32 = 0x14C92A2B;
const STANDARD_ID: u16 = 0x6A5;

#[derive(Debug, Clone, PartialEq)]
pub enum SPIError {
    Error1,
}

/// One scripted bus transaction: the bytes the driver must send and the
/// bytes the chip answers.
#[derive(Debug, Clone, PartialEq)]
enum Op {
    Exchange { expect: [u8; 3], respond: [u8; 3] },
    WriteSix { expect: [u8; 6] },
    WriteRead { expect_cmd: [u8; 2], respond: Vec<u8> },
    WriteWrite { expect_cmd: [u8; 10], expect_data: Vec<u8> },
    Fail,
}

struct Script {
    ops: Vec<Op>,
    pos: usize,
}

#[derive(Clone)]
struct MockSPIDevice(Rc<RefCell<Script>>);

impl MockSPIDevice {
    fn new(ops: Vec<Op>) -> Self {
        MockSPIDevice(Rc::new(RefCell::new(Script { ops, pos: 0 })))
    }

    fn next(&self) -> Op {
        let mut script = self.0.borrow_mut();
        assert!(script.pos < script.ops.len(), "more bus transactions than scripted");
        let op = script.ops[script.pos].clone();
        script.pos += 1;
        op
    }

    fn assert_done(&self) {
        let script = self.0.borrow();
        assert_eq!(script.pos, script.ops.len(), "scripted bus transactions left over");
    }
}

impl SpiDevice for MockSPIDevice {
    type Error = SPIError;

    fn transfer_in_place(&mut self, buf: &mut [u8; 3]) -> Result<(), SPIError> {
        match self.next() {
            Op::Exchange { expect, respond } => {
                assert_eq!(expect, *buf);
                *buf = respond;
                Ok(())
            }
            Op::Fail => Err(SPIError::Error1),
            other => panic!("unexpected three-byte exchange, scripted {:?}", other),
        }
    }

    fn write(&mut self, buf: &[u8; 6]) -> Result<(), SPIError> {
        match self.next() {
            Op::WriteSix { expect } => {
                assert_eq!(expect, *buf);
                Ok(())
            }
            Op::Fail => Err(SPIError::Error1),
            other => panic!("unexpected six-byte write, scripted {:?}", other),
        }
    }

    fn write_then_read(&mut self, cmd: &[u8; 2], data: &mut Vec<u8>) -> Result<(), SPIError> {
        match self.next() {
            Op::WriteRead { expect_cmd, respond } => {
                assert_eq!(expect_cmd, *cmd);
                assert_eq!(respond.len(), data.len());
                data.copy_from_slice(&respond);
                Ok(())
            }
            Op::Fail => Err(SPIError::Error1),
            other => panic!("unexpected write-then-read, scripted {:?}", other),
        }
    }

    fn write_then_write(&mut self, cmd: &[u8; 10], data: &Vec<u8>) -> Result<(), SPIError> {
        match self.next() {
            Op::WriteWrite { expect_cmd, expect_data } => {
                assert_eq!(expect_cmd, *cmd);
                assert_eq!(&expect_data, data);
                Ok(())
            }
            Op::Fail => Err(SPIError::Error1),
            other => panic!("unexpected write-then-write, scripted {:?}", other),
        }
    }
}

struct TestClock {
    next_instants: Vec<u64>,
    pos: usize,
}

impl TestClock {
    fn new(next_instants: Vec<u64>) -> Self {
        TestClock { next_instants, pos: 0 }
    }
}

impl Clock for TestClock {
    fn try_now(&mut self) -> Result<u64, ClockError> {
        if self.pos >= self.next_instants.len() {
            return Err(ClockError::Unspecified);
        }
        let t = self.next_instants[self.pos];
        self.pos += 1;
        Ok(t)
    }
}

fn register_write(expect: [u8; 3]) -> Op {
    Op::Exchange { expect, respond: expect }
}

fn register_read(cmd: [u8; 2], value: u8) -> Op {
    Op::Exchange { expect: [cmd[0], cmd[1], 0], respond: [0, 0, value] }
}

fn read32(cmd: [u8; 2], value: u32) -> Op {
    Op::WriteRead {
        expect_cmd: cmd,
        respond: vec![
            value as u8,
            (value >> 8) as u8,
            (value >> 16) as u8,
            (value >> 24) as u8,
        ],
    }
}

/// The command-plus-header buffer of a FIFO write: the two command bytes,
/// then the eight header bytes with each word byte-swapped to little-endian.
fn fifo_write_buffer(cmd: [u8; 2], header_be: [u8; 8]) -> [u8; 10] {
    let mut buf = [0u8; 10];
    buf[0] = cmd[0];
    buf[1] = cmd[1];
    for word in 0..2 {
        for byte in 0..4 {
            buf[2 + 4 * word + byte] = header_be[4 * word + 3 - byte];
        }
    }
    buf
}

/// The register writes of a configure call between the two mode
/// transitions, for the configuration used by the configure tests.
fn expect_config(ops: &mut Vec<Op>) {
    // Clock configuration
    ops.push(register_write([0x2E, 0x00, 0b0110_0001]));
    // Nominal bit-time configuration
    ops.push(Op::WriteSix { expect: [0x20, 0x04, 1, 15, 62, 0] });
    // RX FIFO configuration
    ops.push(register_write([0x20, 0x5F, 0b0000_1111]));
    // TX FIFO configuration
    ops.push(register_write([0x20, 0x6A, 0b0010_1010]));
    ops.push(register_write([0x20, 0x6B, 0b0001_0011]));
    ops.push(register_write([0x20, 0x68, 0b1000_0000]));
    // Enable filter zero for the RX FIFO
    ops.push(register_write([0x21, 0xD0, 0x00]));
    ops.push(register_write([0x21, 0xD0, 0x01]));
    ops.push(register_write([0x21, 0xD0, 0b1000_0001]));
}

fn configuration_for_tests(mode: RequestMode) -> Configuration {
    Configuration {
        clock: ClockConfiguration {
            clock_output: ClockOutputDivisor::DivideBy10,
            system_clock: SystemClockDivisor::DivideBy1,
            disable_clock: false,
            pll: PLLSetting::TenTimesPLL,
        },
        fifo: FifoConfiguration {
            rx_size: 16,
            tx_attempts: RetransmissionAttempts::Three,
            tx_priority: 10,
            pl_size: PayloadSize::EightBytes,
            tx_size: 20,
            tx_enable: true,
        },
        mode,
        bit_rate: BitRateConfig::default(),
    }
}

#[test]
fn test_configure_correct() {
    let mut clock = TestClock::new(vec![
        100,    // Config mode: timer start
        200,    // Config mode: first expiration check
        300,    // Config mode: second expiration check
        10_000, // Request mode: timer start
        10_100, // Request mode: first expiration check
    ]);

    let mut ops = vec![
        // Request configuration mode
        register_write([0x20, 0x03, 0b0000_1100]),
        // Still in normal mode
        register_read([0x30, 0x02], 0b0001_0100),
        // Configuration mode
        register_read([0x30, 0x02], 0b1001_0100),
    ];
    expect_config(&mut ops);
    // Request normal CAN 2.0 mode
    ops.push(register_write([0x20, 0x03, 0b0000_1110]));
    // Request mode reached
    ops.push(register_read([0x30, 0x02], 0b1100_0000));

    let device = MockSPIDevice::new(ops);
    let mut controller = MCP2517::new(device.clone());
    controller
        .configure(&configuration_for_tests(RequestMode::NormalCAN2_0), &mut clock)
        .unwrap();
    device.assert_done();
}

#[test]
fn test_configure_mode_timeout() {
    let mut clock = TestClock::new(vec![
        100,  // Timer start
        200,  // First expiration check
        2500, // Second expiration check
    ]);

    let ops = vec![
        register_write([0x20, 0x03, 0x0C]),
        // Still in normal mode
        register_read([0x30, 0x02], 0b0001_0100),
        // Still in normal mode
        register_read([0x30, 0x02], 0b0001_0100),
    ];

    let device = MockSPIDevice::new(ops);
    let mut controller = MCP2517::new(device.clone());
    let res = controller.configure(&Configuration::default(), &mut clock);

    assert_eq!(CanError::ConfigurationModeTimeout, res.unwrap_err());
    device.assert_done();
}

#[test]
fn test_request_mode_timeout() {
    let mut clock = TestClock::new(vec![
        100,    // Config mode: timer start
        200,    // Config mode: first expiration check
        300,    // Config mode: second expiration check
        10_000, // Request mode: timer start
        10_100, // Request mode: first expiration check
        15_000, // Request mode: second expiration check (expired)
    ]);

    let mut ops = vec![
        // Request configuration mode
        register_write([0x20, 0x03, 0b0000_1100]),
        // Still in normal mode
        register_read([0x30, 0x02], 0b0001_0100),
        // Configuration mode
        register_read([0x30, 0x02], 0b1001_0100),
    ];
    expect_config(&mut ops);
    // Request normal CAN FD mode
    ops.push(register_write([0x20, 0x03, 0b0000_1000]));
    // Still configuration mode
    ops.push(register_read([0x30, 0x02], 0b1001_0100));
    ops.push(register_read([0x30, 0x02], 0b1001_0100));

    let device = MockSPIDevice::new(ops);
    let mut controller = MCP2517::new(device.clone());
    match controller
        .configure(&configuration_for_tests(RequestMode::NormalCANFD), &mut clock)
        .unwrap_err()
    {
        CanError::RequestModeTimeout => {}
        _ => panic!("unexpected error type"),
    }
    device.assert_done();
}

#[test]
fn test_configure_500kbps() {
    // The 20 MHz, 500 kbps row of the bit-time table: TSEG1 30, TSEG2 7.
    let mut clock = TestClock::new(vec![100, 200, 10_000, 10_100]);

    let config = Configuration {
        bit_rate: BitRateConfig {
            sys_clk: SysClk::MHz20,
            can_speed: CanBaudRate::Kpbs500,
        },
        ..configuration_for_tests(RequestMode::NormalCAN2_0)
    };

    let ops = vec![
        register_write([0x20, 0x03, 0b0000_1100]),
        register_read([0x30, 0x02], 0b1001_0100),
        register_write([0x2E, 0x00, 0b0110_0001]),
        Op::WriteSix { expect: [0x20, 0x04, 0x01, 0x07, 0x1E, 0x00] },
        register_write([0x20, 0x5F, 0b0000_1111]),
        register_write([0x20, 0x6A, 0b0010_1010]),
        register_write([0x20, 0x6B, 0b0001_0011]),
        register_write([0x20, 0x68, 0b1000_0000]),
        register_write([0x21, 0xD0, 0x00]),
        register_write([0x21, 0xD0, 0x01]),
        register_write([0x21, 0xD0, 0b1000_0001]),
        register_write([0x20, 0x03, 0b0000_1110]),
        register_read([0x30, 0x02], 0b1100_0000),
    ];

    let device = MockSPIDevice::new(ops);
    let mut controller = MCP2517::new(device.clone());
    controller.configure(&config, &mut clock).unwrap();
    device.assert_done();
}

#[test]
fn test_configure_mode_reached_after_deadline() {
    // A poll that sees the target mode succeeds even when the clock has
    // already passed the two-millisecond deadline: the mode test comes
    // before the deadline test.
    let mut clock = TestClock::new(vec![
        100,   // Config mode: timer start
        200,   // Config mode: first expiration check
        5_000, // Config mode: second check, past the deadline, mode reached
        6_000, // Request mode: timer start
        6_100, // Request mode: first expiration check
    ]);

    let mut ops = vec![
        register_write([0x20, 0x03, 0b0000_1100]),
        // Still in normal mode
        register_read([0x30, 0x02], 0b0001_0100),
        // Configuration mode, seen on a poll past the deadline
        register_read([0x30, 0x02], 0b1001_0100),
    ];
    expect_config(&mut ops);
    ops.push(register_write([0x20, 0x03, 0b0000_1110]));
    ops.push(register_read([0x30, 0x02], 0b1100_0000));

    let device = MockSPIDevice::new(ops);
    let mut controller = MCP2517::new(device.clone());
    controller
        .configure(&configuration_for_tests(RequestMode::NormalCAN2_0), &mut clock)
        .unwrap();
    device.assert_done();
}

#[test]
fn test_configure_transfer_error() {
    let mut clock = TestClock::new(vec![]);
    let device = MockSPIDevice::new(vec![Op::Fail]);
    let mut controller = MCP2517::new(device.clone());

    match controller.configure(&Configuration::default(), &mut clock).unwrap_err() {
        CanError::BusErr(_) => {}
        _ => panic!("unexpected error type"),
    }
    device.assert_done();
}

#[test]
fn test_configure_clock_error() {
    let mut clock = TestClock::new(vec![]);
    let device = MockSPIDevice::new(vec![register_write([0x20, 0x03, 0b0000_1100])]);
    let mut controller = MCP2517::new(device.clone());

    match controller.configure(&Configuration::default(), &mut clock).unwrap_err() {
        CanError::ClockError => {}
        _ => panic!("unexpected error type"),
    }
    device.assert_done();
}

fn transmit_ops<T: MessageType>(message: &TxMessage<T>, mode_byte: u8, payload: Vec<u8>) -> Vec<Op> {
    vec![
        // TX FIFO full on the first status read, not full on the second
        register_read([0x30, 0x6C], 0b0000_0000),
        register_read([0x30, 0x6C], 0b0000_0001),
        // Operation status
        register_read([0x30, 0x02], mode_byte),
        // FIFO user address: the next message object lies at 0x4A2
        read32([0x30, 0x70], 0x0000_04A2),
        // Message object written to RAM at 0x8A2
        Op::WriteWrite {
            expect_cmd: fifo_write_buffer([0x28, 0xA2], message.get_header().into_bytes()),
            expect_data: payload,
        },
        // Request transmission and increment the FIFO head
        register_write([0x20, 0x69, 0x03]),
        // TXREQ still set on the first control read, cleared on the second
        register_read([0x30, 0x69], 0x02),
        register_read([0x30, 0x69], 0x00),
    ]
}

#[test]
fn test_transmit_can20() {
    let payload: [u8; 8] = [1, 2, 3, 4, 5, 6, 7, 8];
    let payload_bytes = Bytes::copy_from_slice(&payload);

    let msg_type = Can20::<8> {};
    let identifier = Id::new_extended(EXTENDED_ID).unwrap();
    let tx_message = TxMessage::new(msg_type, payload_bytes, identifier).unwrap();

    let ops = transmit_ops(&tx_message, 0b1100_0000, payload.to_vec());
    let device = MockSPIDevice::new(ops);
    let mut controller = MCP2517::new(device.clone());
    controller.transmit(&tx_message, true).unwrap();
    device.assert_done();
}

#[test]
fn test_transmit_can20_3_bytes() {
    let payload: [u8; 3] = [1, 2, 3];
    let payload_bytes = Bytes::copy_from_slice(&payload);

    let msg_type = Can20::<4> {};
    let identifier = Id::new_extended(EXTENDED_ID).unwrap();
    let tx_message = TxMessage::new(msg_type, payload_bytes, identifier).unwrap();

    // The payload is padded with zeroes up to the kind's four bytes.
    let ops = transmit_ops(&tx_message, 0b1100_0000, vec![1, 2, 3, 0]);
    let device = MockSPIDevice::new(ops);
    let mut controller = MCP2517::new(device.clone());
    controller.transmit(&tx_message, true).unwrap();
    device.assert_done();
}

#[test]
fn test_transmit_can_fd() {
    let payload = [1u8; 64];
    let payload_bytes = Bytes::copy_from_slice(&payload);

    let msg_type = CanFd::<64> { bitrate_switch: false };
    let identifier = Id::new_extended(EXTENDED_ID).unwrap();
    let tx_message = TxMessage::new(msg_type, payload_bytes, identifier).unwrap();

    let ops = transmit_ops(&tx_message, 0b0000_0000, payload.to_vec());
    let device = MockSPIDevice::new(ops);
    let mut controller = MCP2517::new(device.clone());
    controller.transmit(&tx_message, true).unwrap();
    device.assert_done();
}

#[test]
fn test_transmit_fifo_full() {
    let payload: [u8; 8] = [1, 2, 3, 4, 5, 6, 7, 8];
    let payload_bytes = Bytes::copy_from_slice(&payload);

    let msg_type = Can20::<8> {};
    let identifier = Id::new_extended(EXTENDED_ID).unwrap();
    let tx_message = TxMessage::new(msg_type, payload_bytes, identifier).unwrap();

    // TX FIFO full; a non-blocking transmit fails at once, with no further
    // bus activity.
    let ops = vec![register_read([0x30, 0x6C], 0b0000_0000)];
    let device = MockSPIDevice::new(ops);
    let mut controller = MCP2517::new(device.clone());
    let res = controller.transmit(&tx_message, false);

    assert_eq!(res.unwrap_err(), CanError::TxFifoFullErr);
    device.assert_done();
}

#[test]
fn test_transmit_invalid_payload_length() {
    // A twelve-byte frame is refused outside normal CAN FD mode.
    let payload = [0u8; 12];
    let payload_bytes = Bytes::copy_from_slice(&payload);
    let tx_message = TxMessage::new(
        CanFd::<12> { bitrate_switch: false },
        payload_bytes,
        Id::new_standard(STANDARD_ID).unwrap(),
    )
    .unwrap();

    let ops = vec![
        register_read([0x30, 0x6C], 0b0000_0001),
        // Normal CAN 2.0 mode
        register_read([0x30, 0x02], 0b1100_0000),
    ];
    let device = MockSPIDevice::new(ops);
    let mut controller = MCP2517::new(device.clone());
    let res = controller.transmit(&tx_message, true);

    assert_eq!(res.unwrap_err(), CanError::InvalidPayloadLength(12));
    device.assert_done();
}

#[test]
fn test_transmit_invalid_ram_address() {
    // A user address placing the padded message object past the end of the
    // 2 KiB message RAM is refused, and nothing is written.
    let payload: [u8; 8] = [1, 2, 3, 4, 5, 6, 7, 8];
    let payload_bytes = Bytes::copy_from_slice(&payload);
    let tx_message = TxMessage::new(
        Can20::<8> {},
        payload_bytes,
        Id::new_standard(STANDARD_ID).unwrap(),
    )
    .unwrap();

    let ops = vec![
        register_read([0x30, 0x6C], 0b0000_0001),
        register_read([0x30, 0x02], 0b1100_0000),
        read32([0x30, 0x70], 0x0000_0800),
    ];
    let device = MockSPIDevice::new(ops);
    let mut controller = MCP2517::new(device.clone());
    let res = controller.transmit(&tx_message, true);

    assert_eq!(res.unwrap_err(), CanError::InvalidRamAddress(0xC00));
    device.assert_done();
}

#[test]
fn test_read_fifo_invalid_payload_buffer_size() {
    let device = MockSPIDevice::new(vec![]);
    let mut controller = MCP2517::new(device.clone());
    let mut buff = vec![0u8; 3];

    let result = controller.read_fifo(0x123, &mut buff);
    assert_eq!(result.unwrap_err(), CanError::InvalidBufferSize(3));
    device.assert_done();
}

#[test]
fn test_receive() {
    let mut message_buff = vec![0u8; 8];

    let ops = vec![
        // RX FIFO empty on the first status read, not empty on the second
        register_read([0x30, 0x60], 0b0000_0000),
        register_read([0x30, 0x60], 0b0000_0001),
        // FIFO user address: the message object lies at 0x47C
        read32([0x30, 0x64], 0x0000_047C),
        // Payload read from 0x884, past the eight header bytes at 0x87C
        Op::WriteRead {
            expect_cmd: [0x38, 0x84],
            respond: vec![1, 2, 3, 4, 5, 6, 7, 8],
        },
        // Advance the FIFO tail
        register_write([0x20, 0x5D, 0b0000_0001]),
    ];
    let device = MockSPIDevice::new(ops);
    let mut controller = MCP2517::new(device.clone());
    let result = controller.receive(&mut message_buff, true);

    assert!(result.is_ok());
    assert_eq!(message_buff, vec![1, 2, 3, 4, 5, 6, 7, 8]);
    device.assert_done();
}

#[test]
fn test_receive_fifo_empty() {
    let mut message_buff = vec![0u8; 8];

    let ops = vec![register_read([0x30, 0x60], 0b0000_0000)];
    let device = MockSPIDevice::new(ops);
    let mut controller = MCP2517::new(device.clone());
    let result = controller.receive(&mut message_buff, false);

    assert_eq!(result.unwrap_err(), CanError::RxFifoEmptyErr);
    device.assert_done();
}

#[test]
fn test_reset_command() {
    let ops = vec![register_write([0x00, 0x00, 0x00])];
    let device = MockSPIDevice::new(ops);
    let mut controller = MCP2517::new(device.clone());
    controller.reset().unwrap();
    device.assert_done();
}

#[test]
fn test_read_operation_status_correct() {
    let ops = vec![register_read([0x30, 0x02], 0b0001_0100)];
    let device = MockSPIDevice::new(ops);
    let mut controller = MCP2517::new(device.clone());

    let status = controller.read_operation_status().unwrap();

    assert_eq!(OperationMode::NormalCANFD, status.mode);
    assert!(status.txq_reserved);
    assert!(!status.store_transmit_event);
    assert!(status.error_trans_listen_only_mode);
    assert!(!status.transmit_esi_gateway);
    assert!(!status.restrict_retransmission);
    device.assert_done();
}

#[test]
fn test_read_operation_status_transfer_error() {
    let device = MockSPIDevice::new(vec![Op::Fail]);
    let mut controller = MCP2517::new(device.clone());

    match controller.read_operation_status().unwrap_err() {
        CanError::BusErr(_) => {}
        _ => panic!("Unexpected error type"),
    }
    device.assert_done();
}

#[test]
fn test_read_oscillator_status_correct() {
    let ops = vec![register_read([0x3E, 0x01], 0b0001_0100)];
    let device = MockSPIDevice::new(ops);
    let mut controller = MCP2517::new(device.clone());

    let status = controller.read_oscillator_status().unwrap();

    assert!(status.sclk_ready);
    assert!(status.clock_ready);
    assert!(!status.pll_ready);
    device.assert_done();
}

#[test]
fn test_read_oscillator_transfer_error() {
    let device = MockSPIDevice::new(vec![Op::Fail]);
    let mut controller = MCP2517::new(device.clone());

    match controller.read_oscillator_status().unwrap_err() {
        CanError::BusErr(_) => {}
        _ => panic!("Unexpected error type"),
    }
    device.assert_done();
}

#[test]
fn test_read_clock_configuration_correct() {
    let ops = vec![register_read([0x3E, 0x00], 0b0110_0000)];
    let device = MockSPIDevice::new(ops);
    let mut controller = MCP2517::new(device.clone());

    let status = controller.read_clock_configuration().unwrap();

    assert_eq!(ClockOutputDivisor::DivideBy10, status.clock_output);
    assert_eq!(SystemClockDivisor::DivideBy1, status.system_clock);
    assert!(!status.disable_clock);
    assert_eq!(PLLSetting::DirectXTALOscillator, status.pll);
    device.assert_done();
}

#[test]
fn test_read_clock_configuration_transfer_error() {
    let device = MockSPIDevice::new(vec![Op::Fail]);
    let mut controller = MCP2517::new(device.clone());

    match controller.read_clock_configuration().unwrap_err() {
        CanError::BusErr(_) => {}
        _ => panic!("Unexpected error type"),
    }
    device.assert_done();
}

#[test]
fn test_filter_enable() {
    let ops = vec![
        register_write([0x21, 0xD2, 0x00]),
        // The index of the FIFO where matching messages are stored
        register_write([0x21, 0xD2, 0x01]),
        register_write([0x21, 0xD2, 0x81]),
    ];
    let device = MockSPIDevice::new(ops);
    let mut controller = MCP2517::new(device.clone());

    let result = controller.enable_filter(1, 2);

    assert!(result.is_ok());
    device.assert_done();
}

#[test]
fn test_filter_disable() {
    // Disable filter six
    let ops = vec![register_write([0x21, 0xD6, 0x00])];
    let device = MockSPIDevice::new(ops);
    let mut controller = MCP2517::new(device.clone());

    let result = controller.disable_filter(6);

    assert!(result.is_ok());
    device.assert_done();
}

#[test]
fn test_set_filter_object_standard_id() {
    let id_standard = Id::new_standard(STANDARD_ID).unwrap();
    let mut filter = Filter::new(id_standard, 1).unwrap();

    // Mask the two least significant bits of the standard ID
    filter.set_mask_standard_id(0b000_0000_0011);

    // MIDE set and EXIDE clear: standard identifiers only
    filter.match_standard_only();

    let ops = vec![
        // Disable filter one
        register_write([0x21, 0xD1, 0x00]),
        // Filter object word
        Op::WriteSix { expect: [0x21, 0xF8, 0xA5, 0x06, 0x00, 0x00] },
        // Mask word
        Op::WriteSix { expect: [0x21, 0xFC, 0x03, 0x00, 0x00, 0x40] },
        // Enable the filter, matches routed to the RX FIFO
        register_write([0x21, 0xD1, 0x81]),
    ];
    let device = MockSPIDevice::new(ops);
    let mut controller = MCP2517::new(device.clone());

    let result = controller.set_filter_object(filter);

    assert!(result.is_ok());
    device.assert_done();
}

#[test]
fn test_set_filter_object_extended_id() {
    let id_extended = Id::new_extended(EXTENDED_ID).unwrap();
    let mut filter = Filter::new(id_extended, 0).unwrap();

    // Mask the two most significant bits of the extended ID
    filter.set_mask_extended_id(0b1_1000_0000_0000_0000_0000_0000_0000);

    let ops = vec![
        // Disable filter zero
        register_write([0x21, 0xD0, 0x00]),
        // Filter object word
        Op::WriteSix { expect: [0x21, 0xF0, 0x32, 0x5D, 0x51, 0x09] },
        // Mask word
        Op::WriteSix { expect: [0x21, 0xF4, 0x00, 0x06, 0x00, 0x00] },
        // Enable the filter, matches routed to the RX FIFO
        register_write([0x21, 0xD0, 0x81]),
    ];
    let device = MockSPIDevice::new(ops);
    let mut controller = MCP2517::new(device.clone());

    let result_extended = controller.set_filter_object(filter);

    assert!(result_extended.is_ok());
    device.assert_done();
}

#[test]
fn test_lib() {
    let spi_dev = ExampleSPIDevice::default();
    let mut clock = ExampleClock::default();

    let mut controller = MCP2517::new(spi_dev);

    // Configure the CAN controller
    controller
        .configure(
            &Configuration {
                clock: ClockConfiguration {
                    clock_output: ClockOutputDivisor::DivideBy10,
                    system_clock: SystemClockDivisor::DivideBy1,
                    disable_clock: false,
                    pll: PLLSetting::TenTimesPLL,
                },
                fifo: FifoConfiguration {
                    rx_size: 16,
                    tx_attempts: RetransmissionAttempts::Three,
                    tx_priority: 10,
                    pl_size: PayloadSize::EightBytes,
                    tx_size: 20,
                    tx_enable: true,
                },
                mode: RequestMode::NormalCANFD,
                bit_rate: BitRateConfig {
                    sys_clk: SysClk::MHz20,
                    can_speed: CanBaudRate::Kpbs500,
                },
            },
            &mut clock,
        )
        .unwrap();

    // Create a message frame
    let can_id = Id::new_standard(0x55).unwrap();
    let message_type = Can20::<8> {};
    let payload = [0x1, 0x2, 0x3, 0x4, 0x5, 0x6, 0x7, 0x8];
    let pl_bytes = Bytes::copy_from_slice(&payload);
    let can_message = TxMessage::new(message_type, pl_bytes, can_id).unwrap();

    // Create and set a filter object
    let filter = Filter::new(can_id, 0).unwrap();
    let _ = controller.set_filter_object(filter);

    // Transmit the CAN message in blocking mode
    controller.transmit(&can_message, true).unwrap();

    // Receive a CAN message in blocking mode
    let mut buff = vec![0u8; 8];
    let result = controller.receive(&mut buff, true);
    assert!(result.is_ok());
    assert_eq!(buff, vec![0x1, 0x2, 0x3, 0x4, 0x5, 0x6, 0x7, 0x8]);
}
