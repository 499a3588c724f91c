use mcp2517::config::{PayloadSize, RetransmissionAttempts};
use mcp2517::registers::{
    FifoControlReg0, FifoControlReg1, FifoControlReg2, FifoControlReg3, FifoStatusReg0,
};

#[test]
fn test_fifocontrolreg0() {
    assert_eq!([0b1000_0000], FifoControlReg0::new().with_txen(true).into_bytes());
}

#[test]
fn test_fifocontrolreg1() {
    assert_eq!(
        [0b0000_0011],
        FifoControlReg1::new().with_uinc(true).with_txreq(true).into_bytes()
    );
}

#[test]
fn test_fifocontrolreg2() {
    assert_eq!(
        [0b0100_0011],
        FifoControlReg2::new()
            .with_txat(RetransmissionAttempts::Unlimited as u8)
            .with_txpri(3)
            .into_bytes()
    );
}

#[test]
fn test_fifocontrolreg3() {
    let fifo_control_reg3 = FifoControlReg3::new()
        .with_plsize(PayloadSize::TwentyFourBytes as u8)
        .with_fifo_size(32);

    assert_eq!(32, fifo_control_reg3.fifo_size());
    assert_eq!([0b1001_1111], fifo_control_reg3.into_bytes());
}

#[test]
fn test_fifostatusreg0() {
    assert_eq!([0b0000_0001], FifoStatusReg0::new().with_tfnrfnif(true).into_bytes());
}
