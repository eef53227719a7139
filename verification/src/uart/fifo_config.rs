//! The first FIFO configuration register: how full the two queues are, and
//! at which fill they raise their interrupts.

use vstd::prelude::*;

verus! {

/// The count of available data in the transmit queue.
pub const TRANSMIT_COUNT: u32 = 0x3f;

/// The count of available data in the receive queue.
pub const RECEIVE_COUNT: u32 = 0x3f00;

/// The transmit queue's threshold.
pub const TRANSMIT_THRESHOLD: u32 = 0x1f_0000;

/// The receive queue's threshold.
pub const RECEIVE_THRESHOLD: u32 = 0x1f00_0000;

/// Where the receive count starts.
pub const RECEIVE_COUNT_SHIFT: u32 = 8;

/// Where the transmit threshold starts.
pub const TRANSMIT_THRESHOLD_SHIFT: u32 = 16;

/// Where the receive threshold starts.
pub const RECEIVE_THRESHOLD_SHIFT: u32 = 24;

/// Configuration structure for FIFO configuration 1.
#[derive(Clone, Copy, Debug, PartialEq, Eq)]
pub struct FifoConfig1(u32);

/// What a FIFO configuration says, field by field.
pub struct FifoFields {
    pub transmit_count: u8,
    pub receive_count: u8,
    pub transmit_threshold: u8,
    pub receive_threshold: u8,
}

/// What a register word says as a FIFO configuration.
pub open spec fn fifo_fields(bits: u32) -> FifoFields {
    FifoFields {
        transmit_count: (bits & TRANSMIT_COUNT) as u8,
        receive_count: ((bits & RECEIVE_COUNT) >> RECEIVE_COUNT_SHIFT) as u8,
        transmit_threshold: ((bits & TRANSMIT_THRESHOLD) >> TRANSMIT_THRESHOLD_SHIFT) as u8,
        receive_threshold: ((bits & RECEIVE_THRESHOLD) >> RECEIVE_THRESHOLD_SHIFT) as u8,
    }
}

/// A threshold of at most 31 that is written into the transmit threshold is
/// read back from it, and the other fields stay.
proof fn lemma_insert_transmit_threshold(word: u32, val: u32)
    by (bit_vector)
    requires
        val <= 0x1f,
    ensures
        ((word & !TRANSMIT_THRESHOLD | (val << TRANSMIT_THRESHOLD_SHIFT)) & TRANSMIT_THRESHOLD)
            >> TRANSMIT_THRESHOLD_SHIFT == val,
        (word & !TRANSMIT_THRESHOLD | (val << TRANSMIT_THRESHOLD_SHIFT)) & TRANSMIT_COUNT == word
            & TRANSMIT_COUNT,
        (word & !TRANSMIT_THRESHOLD | (val << TRANSMIT_THRESHOLD_SHIFT)) & RECEIVE_COUNT == word
            & RECEIVE_COUNT,
        (word & !TRANSMIT_THRESHOLD | (val << TRANSMIT_THRESHOLD_SHIFT)) & RECEIVE_THRESHOLD
            == word & RECEIVE_THRESHOLD,
{
}

/// A threshold of at most 31 that is written into the receive threshold is
/// read back from it, and the other fields stay.
proof fn lemma_insert_receive_threshold(word: u32, val: u32)
    by (bit_vector)
    requires
        val <= 0x1f,
    ensures
        ((word & !RECEIVE_THRESHOLD | (val << RECEIVE_THRESHOLD_SHIFT)) & RECEIVE_THRESHOLD)
            >> RECEIVE_THRESHOLD_SHIFT == val,
        (word & !RECEIVE_THRESHOLD | (val << RECEIVE_THRESHOLD_SHIFT)) & TRANSMIT_COUNT == word
            & TRANSMIT_COUNT,
        (word & !RECEIVE_THRESHOLD | (val << RECEIVE_THRESHOLD_SHIFT)) & RECEIVE_COUNT == word
            & RECEIVE_COUNT,
        (word & !RECEIVE_THRESHOLD | (val << RECEIVE_THRESHOLD_SHIFT)) & TRANSMIT_THRESHOLD
            == word & TRANSMIT_THRESHOLD,
{
}

/// How large the numbers in the fields of a register word can be.
proof fn lemma_field_ranges(word: u32)
    by (bit_vector)
    ensures
        word & TRANSMIT_COUNT <= 0x3f,
        (word & RECEIVE_COUNT) >> RECEIVE_COUNT_SHIFT <= 0x3f,
        (word & TRANSMIT_THRESHOLD) >> TRANSMIT_THRESHOLD_SHIFT <= 0x1f,
        (word & RECEIVE_THRESHOLD) >> RECEIVE_THRESHOLD_SHIFT <= 0x1f,
{
}

impl View for FifoConfig1 {
    type V = u32;

    closed spec fn view(&self) -> u32 {
        self.0
    }
}

impl Default for FifoConfig1 {
    fn default() -> (config: Self)
        ensures
            config@ == 0,
    {
        FifoConfig1(0)
    }
}

impl FifoConfig1 {
    /// What this configuration says, field by field.
    pub open spec fn fields(self) -> FifoFields {
        fifo_fields(self@)
    }

    /// The configuration that a register word spells.
    pub fn from_bits(bits: u32) -> (config: Self)
        ensures
            config@ == bits,
    {
        FifoConfig1(bits)
    }

    /// The register word that spells this configuration.
    pub fn bits(self) -> (bits: u32)
        ensures
            bits == self@,
    {
        self.0
    }

    /// Get count of available data in transmit FIFO.
    pub fn transmit_count(self) -> (count: u8)
        ensures
            count == self.fields().transmit_count,
            count <= 0x3f,
    {
        proof {
            lemma_field_ranges(self.0);
        }
        (self.0 & TRANSMIT_COUNT) as u8
    }

    /// Get count of available data in receive FIFO.
    pub fn receive_count(self) -> (count: u8)
        ensures
            count == self.fields().receive_count,
            count <= 0x3f,
    {
        proof {
            lemma_field_ranges(self.0);
        }
        ((self.0 & RECEIVE_COUNT) >> RECEIVE_COUNT_SHIFT) as u8
    }

    /// Set transmit FIFO threshold.
    ///
    /// The field is five bits wide: a threshold above 31 spills into the bits
    /// above it.
    pub fn set_transmit_threshold(self, val: u8) -> (config: Self)
        ensures
            config@ == self@ & !TRANSMIT_THRESHOLD | ((val as u32) << TRANSMIT_THRESHOLD_SHIFT),
            val <= 0x1f ==> config.fields() == (FifoFields {
                transmit_threshold: val,
                ..self.fields()
            }),
    {
        proof {
            if val <= 0x1f {
                lemma_insert_transmit_threshold(self.0, val as u32);
            }
        }
        FifoConfig1(self.0 & !TRANSMIT_THRESHOLD | ((val as u32) << TRANSMIT_THRESHOLD_SHIFT))
    }

    /// Get transmit FIFO threshold.
    pub fn transmit_threshold(self) -> (val: u8)
        ensures
            val == self.fields().transmit_threshold,
            val <= 0x1f,
    {
        proof {
            lemma_field_ranges(self.0);
        }
        ((self.0 & TRANSMIT_THRESHOLD) >> TRANSMIT_THRESHOLD_SHIFT) as u8
    }

    /// Set receive FIFO threshold.
    ///
    /// The field is five bits wide: a threshold above 31 spills into the bits
    /// above it.
    pub fn set_receive_threshold(self, val: u8) -> (config: Self)
        ensures
            config@ == self@ & !RECEIVE_THRESHOLD | ((val as u32) << RECEIVE_THRESHOLD_SHIFT),
            val <= 0x1f ==> config.fields() == (FifoFields {
                receive_threshold: val,
                ..self.fields()
            }),
    {
        proof {
            if val <= 0x1f {
                lemma_insert_receive_threshold(self.0, val as u32);
            }
        }
        FifoConfig1(self.0 & !RECEIVE_THRESHOLD | ((val as u32) << RECEIVE_THRESHOLD_SHIFT))
    }

    /// Get receive FIFO threshold.
    pub fn receive_threshold(self) -> (val: u8)
        ensures
            val == self.fields().receive_threshold,
            val <= 0x1f,
    {
        proof {
            lemma_field_ranges(self.0);
        }
        ((self.0 & RECEIVE_THRESHOLD) >> RECEIVE_THRESHOLD_SHIFT) as u8
    }
}

} // verus!
