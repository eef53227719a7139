//! The bit period register: how many clocks one bit takes on the wire.

use vstd::prelude::*;

verus! {

/// The bits that are read as the transmit time interval.
pub const TRANSMIT: u32 = 0xff;

/// The bits that are read as the receive time interval.
pub const RECEIVE: u32 = 0xff_0000;

/// Where the receive time interval starts.
pub const RECEIVE_SHIFT: u32 = 16;

/// Configuration structure for bit period.
#[derive(Clone, Copy, Debug, PartialEq, Eq)]
pub struct BitPeriod(u32);

/// The transmit time interval that a register word spells.
pub open spec fn transmit_of(bits: u32) -> u16 {
    (bits & TRANSMIT) as u16
}

/// The receive time interval that a register word spells.
pub open spec fn receive_of(bits: u32) -> u16 {
    ((bits & RECEIVE) >> RECEIVE_SHIFT) as u16
}

/// An interval of at most 255 that is written as the transmit time interval
/// is read back as that, and the receive time interval stays.
proof fn lemma_insert_transmit(word: u32, val: u32)
    by (bit_vector)
    requires
        val <= 0xff,
    ensures
        (word & !TRANSMIT | val) & TRANSMIT == val,
        (word & !TRANSMIT | val) & RECEIVE == word & RECEIVE,
{
}

/// An interval of at most 255 that is written as the receive time interval is
/// read back as that, and the transmit time interval stays.
proof fn lemma_insert_receive(word: u32, val: u32)
    by (bit_vector)
    requires
        val <= 0xff,
    ensures
        ((word & !RECEIVE | (val << RECEIVE_SHIFT)) & RECEIVE) >> RECEIVE_SHIFT == val,
        (word & !RECEIVE | (val << RECEIVE_SHIFT)) & TRANSMIT == word & TRANSMIT,
{
}

/// How large the two intervals that are read from a register word can be.
proof fn lemma_interval_ranges(word: u32)
    by (bit_vector)
    ensures
        word & TRANSMIT <= 0xff,
        (word & RECEIVE) >> RECEIVE_SHIFT <= 0xff,
{
}

impl View for BitPeriod {
    type V = u32;

    closed spec fn view(&self) -> u32 {
        self.0
    }
}

impl Default for BitPeriod {
    fn default() -> (period: Self)
        ensures
            period@ == 0,
    {
        BitPeriod(0)
    }
}

impl BitPeriod {
    /// The bit period that a register word spells.
    pub fn from_bits(bits: u32) -> (period: Self)
        ensures
            period@ == bits,
    {
        BitPeriod(bits)
    }

    /// The register word that spells this bit period.
    pub fn bits(self) -> (bits: u32)
        ensures
            bits == self@,
    {
        self.0
    }

    /// Set transmit time interval.
    ///
    /// The low eight bits of the register make way for `val`, which is
    /// written as it is: an interval above 255 also sets bits above them.
    pub fn set_transmit_time_interval(self, val: u16) -> (period: Self)
        ensures
            period@ == self@ & !TRANSMIT | val as u32,
            val <= 0xff ==> transmit_of(period@) == val && receive_of(period@) == receive_of(
                self@,
            ),
    {
        proof {
            if val <= 0xff {
                lemma_insert_transmit(self.0, val as u32);
            }
        }
        BitPeriod(self.0 & !TRANSMIT | val as u32)
    }

    /// Get transmit time interval.
    pub fn transmit_time_interval(self) -> (val: u16)
        ensures
            val == transmit_of(self@),
            val <= 0xff,
    {
        proof {
            lemma_interval_ranges(self.0);
        }
        (self.0 & TRANSMIT) as u16
    }

    /// Set receive time interval.
    ///
    /// Eight bits of the register make way for `val`, which is written as it
    /// is: an interval above 255 also sets bits above them.
    pub fn set_receive_time_interval(self, val: u16) -> (period: Self)
        ensures
            period@ == self@ & !RECEIVE | ((val as u32) << RECEIVE_SHIFT),
            val <= 0xff ==> receive_of(period@) == val && transmit_of(period@) == transmit_of(
                self@,
            ),
    {
        proof {
            if val <= 0xff {
                lemma_insert_receive(self.0, val as u32);
            }
        }
        BitPeriod(self.0 & !RECEIVE | ((val as u32) << RECEIVE_SHIFT))
    }

    /// Get receive time interval.
    pub fn receive_time_interval(self) -> (val: u16)
        ensures
            val == receive_of(self@),
            val <= 0xff,
    {
        proof {
            lemma_interval_ranges(self.0);
        }
        ((self.0 & RECEIVE) >> RECEIVE_SHIFT) as u16
    }
}

} // verus!
