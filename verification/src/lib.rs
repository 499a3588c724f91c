//! Driver for the MCP2517FD external CAN FD controller.
//!
//! The controller is attached over an SPI bus. The driver translates
//! high-level CAN operations (configure the controller, install acceptance
//! filters, enqueue a frame for transmission, retrieve a received frame)
//! into the byte-level SPI command protocol of the MCP251XXFD family and
//! presents a typed API to embedded applications.
//!
//! The SPI device and the monotonic clock are injected capabilities: the
//! driver is generic over the [`bus::SpiDevice`] and [`bus::Clock`] traits
//! and never names a concrete transport. Every register access the driver
//! performs is recorded in a ghost trace of [`bus::BusEvent`] values, and
//! the contracts of the public operations state the exact sequence of bus
//! transactions each operation performs.

pub mod bus;
pub mod can;
pub mod config;
pub mod example;
pub mod filter;
pub mod id;
pub mod message;
pub mod registers;
pub mod status;
