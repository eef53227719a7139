//! The bus state register.

use vstd::prelude::*;

verus! {

/// Set while the transmitter is busy.
pub const TRANSMIT_BUSY: u32 = 0x1;

/// Set while the receiver is busy.
pub const RECEIVE_BUSY: u32 = 0x2;

/// Configuration structure for bus state.
#[derive(Clone, Copy, Debug, PartialEq, Eq)]
pub struct BusState(u32);

impl View for BusState {
    type V = u32;

    closed spec fn view(&self) -> u32 {
        self.0
    }
}

impl Default for BusState {
    fn default() -> (state: Self)
        ensures
            state@ == 0,
    {
        BusState(0)
    }
}

impl BusState {
    /// The state that a register word spells.
    pub fn from_bits(bits: u32) -> (state: Self)
        ensures
            state@ == bits,
    {
        BusState(bits)
    }

    /// The register word that spells this state.
    pub fn bits(self) -> (bits: u32)
        ensures
            bits == self@,
    {
        self.0
    }

    /// Get if UART transmit bus is busy.
    pub fn transmit_busy(self) -> (busy: bool)
        ensures
            busy == (self@ & TRANSMIT_BUSY != 0),
    {
        self.0 & TRANSMIT_BUSY != 0
    }

    /// Get if UART receive bus is busy.
    pub fn receive_busy(self) -> (busy: bool)
        ensures
            busy == (self@ & RECEIVE_BUSY != 0),
    {
        self.0 & RECEIVE_BUSY != 0
    }
}

} // verus!
