//! Universal Asynchronous Receiver/Transmitter: the values that its
//! registers hold, and how a serial configuration is spelled in them.
//!
//! A register value is a plain 32-bit word. Each type here wraps one, reads
//! the fields that the hardware defines in it, and writes them without
//! disturbing the others.

pub mod bit_period;
pub mod bus_state;
pub mod config;
pub mod data_config;
pub mod data_write;
pub mod fifo_config;
pub mod mux;
pub mod serial;
pub mod transmit_config;
pub mod word;

pub use crate::uart::bit_period::BitPeriod;
pub use crate::uart::bus_state::BusState;
pub use crate::uart::config::{
    BitOrder, Config, Error, ErrorKind, Parity, StopBits, WordLength,
};
pub use crate::uart::data_config::DataConfig;
pub use crate::uart::data_write::DataWrite;
pub use crate::uart::fifo_config::FifoConfig1;
pub use crate::uart::mux::{MuxCts, MuxRts, MuxRxd, MuxTxd, Uart, UartSignal};
pub use crate::uart::transmit_config::TransmitConfig;
