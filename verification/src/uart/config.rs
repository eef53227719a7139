//! How a serial line is configured, and what can go wrong on it.

use vstd::prelude::*;

verus! {

/// Serial configuration.
#[derive(Copy, Clone, Debug, PartialEq, Eq, Structural)]
pub struct Config {
    /// Data bit order.
    pub bit_order: BitOrder,
    /// Parity settings.
    pub parity: Parity,
    /// Serial stop bits.
    pub stop_bits: StopBits,
    /// Data word length.
    pub word_length: WordLength,
}

/// Order of the bits transmitted and received on the wire.
#[derive(Debug, Copy, Clone, PartialEq, Eq, Structural)]
pub enum BitOrder {
    /// Each byte is sent out LSB-first.
    LsbFirst,
    /// Each byte is sent out MSB-first.
    MsbFirst,
}

/// Parity check.
#[derive(Copy, Clone, Debug, PartialEq, Eq, Structural)]
pub enum Parity {
    /// No parity check.
    Off,
    /// Even parity bit.
    Even,
    /// Odd parity bit.
    Odd,
}

/// Stop bits.
#[derive(Copy, Clone, Debug, PartialEq, Eq, Structural)]
pub enum StopBits {
    /// 0.5 stop bits.
    ZeroPointFive,
    /// 1 stop bit.
    One,
    /// 1.5 stop bits.
    OnePointFive,
    /// 2 stop bits.
    Two,
}

/// Word length.
#[derive(Copy, Clone, Debug, PartialEq, Eq, Structural)]
pub enum WordLength {
    /// Five bits per word.
    Five,
    /// Six bits per word.
    Six,
    /// Seven bits per word.
    Seven,
    /// Eight bits per word.
    Eight,
}

/// Serial error.
#[derive(Copy, Clone, Debug, PartialEq, Eq, Structural)]
#[non_exhaustive]
pub enum Error {
    /// Framing error.
    Framing,
    /// Noise error.
    Noise,
    /// RX buffer overrun.
    Overrun,
    /// Parity check error.
    Parity,
}

/// The kinds of serial error that generic code tells apart.
#[derive(Copy, Clone, Debug, PartialEq, Eq, Structural)]
pub enum ErrorKind {
    /// The peripheral receive buffer was overrun.
    Overrun,
    /// Received data does not conform to the peripheral configuration.
    FrameFormat,
    /// Parity check failed.
    Parity,
    /// Serial line is too noisy to read valid data.
    Noise,
    /// A different error occurred.
    Other,
}

impl Error {
    /// The generic kind of this error.
    pub fn kind(&self) -> (kind: ErrorKind)
        ensures
            kind == match *self {
                Error::Framing => ErrorKind::FrameFormat,
                Error::Noise => ErrorKind::Noise,
                Error::Overrun => ErrorKind::Overrun,
                Error::Parity => ErrorKind::Parity,
            },
    {
        match self {
            Error::Framing => ErrorKind::FrameFormat,
            Error::Noise => ErrorKind::Noise,
            Error::Overrun => ErrorKind::Overrun,
            Error::Parity => ErrorKind::Parity,
        }
    }
}

} // verus!
