//! Which internal UART signal a multiplexer slot carries, and which pins can
//! reach which slot.

use vstd::prelude::*;

verus! {

/// Number of UART peripherals whose signals can be multiplexed.
pub const UART_COUNT: usize = 3;

/// Number of UART signal multiplexers.
pub const MUX_COUNT: usize = 12;

/// The highest pin number that connects to a UART signal multiplexer.
pub const LAST_UART_PIN: usize = 45;

/// UART alternate (type state).
pub struct Uart;

/// An internal UART signal.
#[derive(Clone, Copy, Debug, PartialEq, Eq, Structural)]
pub enum UartSignal {
    Rts0,
    Cts0,
    Txd0,
    Rxd0,
    Rts1,
    Cts1,
    Txd1,
    Rxd1,
    Rts2,
    Cts2,
    Txd2,
    Rxd2,
}

/// What a UART does with a signal.
#[derive(Clone, Copy, Debug, PartialEq, Eq, Structural)]
pub enum SignalRole {
    /// Request-to-Send.
    Rts,
    /// Clear-to-Send.
    Cts,
    /// Transmit.
    Txd,
    /// Receive.
    Rxd,
}

impl UartSignal {
    /// The UART that this signal belongs to.
    pub open spec fn uart(self) -> int {
        match self {
            UartSignal::Rts0 | UartSignal::Cts0 | UartSignal::Txd0 | UartSignal::Rxd0 => 0,
            UartSignal::Rts1 | UartSignal::Cts1 | UartSignal::Txd1 | UartSignal::Rxd1 => 1,
            UartSignal::Rts2 | UartSignal::Cts2 | UartSignal::Txd2 | UartSignal::Rxd2 => 2,
        }
    }

    /// What its UART does with this signal.
    pub open spec fn role(self) -> SignalRole {
        match self {
            UartSignal::Rts0 | UartSignal::Rts1 | UartSignal::Rts2 => SignalRole::Rts,
            UartSignal::Cts0 | UartSignal::Cts1 | UartSignal::Cts2 => SignalRole::Cts,
            UartSignal::Txd0 | UartSignal::Txd1 | UartSignal::Txd2 => SignalRole::Txd,
            UartSignal::Rxd0 | UartSignal::Rxd1 | UartSignal::Rxd2 => SignalRole::Rxd,
        }
    }
}

/// Multiplex to Request-to-Send (type state).
pub struct MuxRts<const U: usize>;

/// Multiplex to Clear-to-Send (type state).
pub struct MuxCts<const U: usize>;

/// Multiplex to Transmit (type state).
pub struct MuxTxd<const U: usize>;

/// Multiplex to Receive (type state).
pub struct MuxRxd<const U: usize>;

impl<const U: usize> MuxRts<U> {
    /// The Request-to-Send signal of UART `U`.
    pub fn to_signal() -> (signal: UartSignal)
        requires
            U < UART_COUNT,
        ensures
            signal.uart() == U,
            signal.role() == SignalRole::Rts,
    {
        if U == 0 {
            UartSignal::Rts0
        } else if U == 1 {
            UartSignal::Rts1
        } else {
            UartSignal::Rts2
        }
    }
}

impl<const U: usize> MuxCts<U> {
    /// The Clear-to-Send signal of UART `U`.
    pub fn to_signal() -> (signal: UartSignal)
        requires
            U < UART_COUNT,
        ensures
            signal.uart() == U,
            signal.role() == SignalRole::Cts,
    {
        if U == 0 {
            UartSignal::Cts0
        } else if U == 1 {
            UartSignal::Cts1
        } else {
            UartSignal::Cts2
        }
    }
}

impl<const U: usize> MuxTxd<U> {
    /// The Transmit signal of UART `U`.
    pub fn to_signal() -> (signal: UartSignal)
        requires
            U < UART_COUNT,
        ensures
            signal.uart() == U,
            signal.role() == SignalRole::Txd,
    {
        if U == 0 {
            UartSignal::Txd0
        } else if U == 1 {
            UartSignal::Txd1
        } else {
            UartSignal::Txd2
        }
    }
}

impl<const U: usize> MuxRxd<U> {
    /// The Receive signal of UART `U`.
    pub fn to_signal() -> (signal: UartSignal)
        requires
            U < UART_COUNT,
        ensures
            signal.uart() == U,
            signal.role() == SignalRole::Rxd,
    {
        if U == 0 {
            UartSignal::Rxd0
        } else if U == 1 {
            UartSignal::Rxd1
        } else {
            UartSignal::Rxd2
        }
    }
}

/// Where the setting of a signal multiplexer lies: in which register of the
/// multiplexer group, and in which of that register's eight slots.
#[derive(Clone, Copy, Debug, PartialEq, Eq, Structural)]
pub struct MuxSlot {
    pub register: usize,
    pub slot: usize,
}

/// Finds the register and the slot that hold the setting of multiplexer
/// `index`.
pub fn mux_slot(index: usize) -> (place: MuxSlot)
    ensures
        place.register == index / 8,
        place.slot == index % 8,
{
    proof {
        lemma_slot(index);
    }
    MuxSlot { register: index >> 3, slot: index & 0x7 }
}

/// Shifting by three divides by eight, and the low three bits are what is
/// left.
proof fn lemma_slot(index: usize)
    by (bit_vector)
    ensures
        index >> 3 == index / 8,
        index & 0x7 == index % 8,
{
}

/// Whether pin `pin` is internally connected to UART signal multiplexer
/// `index`: pins 1 to 45 are, each to the multiplexer whose number is the
/// pin's number modulo 12.
pub open spec fn connected(pin: usize, index: usize) -> bool {
    1 <= pin <= LAST_UART_PIN && index == pin % MUX_COUNT
}

/// Checks if pin `pin` is internally connected to UART signal multiplexer
/// `index`.
pub fn has_uart_signal(pin: usize, index: usize) -> (has: bool)
    ensures
        has == connected(pin, index),
{
    1 <= pin && pin <= LAST_UART_PIN && index == pin % MUX_COUNT
}

} // verus!
