//! The data format configuration register.

use vstd::prelude::*;
use crate::uart::config::BitOrder;
use crate::uart::word::{lemma_clear, lemma_set};

verus! {

/// Set where each word is sent with its most significant bit first.
pub const BIT_ORDER: u32 = 0x1;

/// Configuration structure for data format.
#[derive(Clone, Copy, Debug, PartialEq, Eq)]
pub struct DataConfig(u32);

/// The bit order that a register word spells.
pub open spec fn bit_order_of(bits: u32) -> BitOrder {
    if bits & BIT_ORDER == 0 {
        BitOrder::LsbFirst
    } else {
        BitOrder::MsbFirst
    }
}

impl View for DataConfig {
    type V = u32;

    closed spec fn view(&self) -> u32 {
        self.0
    }
}

impl Default for DataConfig {
    fn default() -> (config: Self)
        ensures
            config@ == 0,
    {
        DataConfig(0)
    }
}

impl DataConfig {
    /// The configuration that a register word spells.
    pub fn from_bits(bits: u32) -> (config: Self)
        ensures
            config@ == bits,
    {
        DataConfig(bits)
    }

    /// The register word that spells this configuration.
    pub fn bits(self) -> (bits: u32)
        ensures
            bits == self@,
    {
        self.0
    }

    /// Set the bit order in each data word.
    pub fn set_bit_order(self, val: BitOrder) -> (config: Self)
        ensures
            config@ == match val {
                BitOrder::LsbFirst => self@ & !BIT_ORDER,
                BitOrder::MsbFirst => self@ | BIT_ORDER,
            },
            bit_order_of(config@) == val,
            config@ & !BIT_ORDER == self@ & !BIT_ORDER,
    {
        proof {
            lemma_set(self.0, BIT_ORDER);
            lemma_clear(self.0, BIT_ORDER);
        }
        match val {
            BitOrder::LsbFirst => DataConfig(self.0 & !BIT_ORDER),
            BitOrder::MsbFirst => DataConfig(self.0 | BIT_ORDER),
        }
    }

    /// Get the bit order in each data word.
    pub fn bit_order(self) -> (order: BitOrder)
        ensures
            order == bit_order_of(self@),
    {
        if self.0 & BIT_ORDER == 0 {
            BitOrder::LsbFirst
        } else {
            BitOrder::MsbFirst
        }
    }
}

} // verus!
