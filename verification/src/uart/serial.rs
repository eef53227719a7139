//! What is written to the registers to bring a serial port up.

use vstd::prelude::*;
use crate::uart::bit_period::{BitPeriod, RECEIVE, RECEIVE_SHIFT, TRANSMIT};
use crate::uart::config::{Config, Parity};
use crate::uart::data_config::{bit_order_of, DataConfig, BIT_ORDER};
use crate::uart::transmit_config::{
    lemma_zero_word, word_length_code, TransmitConfig, TransmitFields,
};

verus! {

/// The number of UART clocks that one bit takes at `baudrate`, where the
/// hardware can count that far: the clock divided by the baud rate, rounded
/// down, which must come to at least 1 and at most 65535.
pub open spec fn interval_of(uart_clock: u32, baudrate: u32) -> Option<u16> {
    if baudrate != 0 && 1 <= uart_clock / baudrate <= 0xffff {
        Some((uart_clock / baudrate) as u16)
    } else {
        None
    }
}

/// Computes the number of UART clocks that one bit takes at `baudrate`, or
/// `None` where that baud rate cannot be had from this clock.
pub fn time_interval(uart_clock: u32, baudrate: u32) -> (interval: Option<u16>)
    ensures
        interval == interval_of(uart_clock, baudrate),
{
    if baudrate == 0 {
        return None;
    }
    let interval: u32 = uart_clock / baudrate;
    if interval < 1 || interval > 0xffff {
        return None;
    }
    Some(interval as u16)
}

/// Writing one interval for both directions into a cleared register gives
/// the interval in the low half of the word and again in the high half.
proof fn lemma_both_intervals(interval: u32)
    by (bit_vector)
    requires
        interval <= 0xffff,
    ensures
        (0u32 & !TRANSMIT | interval) & !RECEIVE | (interval << RECEIVE_SHIFT) == interval
            | (interval << RECEIVE_SHIFT),
{
}

/// A cleared data configuration with one bit order set holds nothing else.
proof fn lemma_only_bit_order(word: u32)
    by (bit_vector)
    requires
        word == 0u32 & !BIT_ORDER || word == 0u32 | BIT_ORDER,
    ensures
        word & !BIT_ORDER == 0,
{
}

impl BitPeriod {
    /// The bit period for a port that sends and receives at one speed:
    /// `interval` clocks for a bit in either direction.
    pub fn with_interval(interval: u16) -> (period: BitPeriod)
        ensures
            period@ == interval as u32 | ((interval as u32) << RECEIVE_SHIFT),
    {
        proof {
            lemma_both_intervals(interval as u32);
        }
        BitPeriod::from_bits(0).set_transmit_time_interval(interval).set_receive_time_interval(
            interval,
        )
    }
}

impl Config {
    /// The data configuration that this configuration calls for: its bit
    /// order, and nothing else.
    pub fn data_config(self) -> (word: DataConfig)
        ensures
            bit_order_of(word@) == self.bit_order,
            word@ & !BIT_ORDER == 0,
    {
        let word = DataConfig::from_bits(0).set_bit_order(self.bit_order);
        proof {
            lemma_only_bit_order(word@);
        }
        word
    }

    /// The transmit configuration that this configuration calls for on a port
    /// whose pins do or do not include a transmit and a Clear-to-Send line:
    /// free-run mode with this parity, these stop bits and this word length,
    /// and nothing else.
    pub fn transmit_config(self, txd: bool, cts: bool) -> (word: TransmitConfig)
        ensures
            word.fields() == (TransmitFields {
                txd,
                cts,
                freerun: true,
                lin_transmit: false,
                parity_enable: self.parity != Parity::Off,
                parity_odd: self.parity == Parity::Odd,
                ir_transmit: false,
                ir_inverse: false,
                word_length_code: word_length_code(self.word_length),
                stop_bits: self.stop_bits,
                lin_break_bits: 0,
                transfer_length: 0,
                reserved: 0,
            }),
    {
        proof {
            lemma_zero_word();
        }
        let mut word = TransmitConfig::from_bits(0).enable_freerun().set_parity(
            self.parity,
        ).set_stop_bits(self.stop_bits).set_word_length(self.word_length);
        if txd {
            word = word.enable_txd();
        }
        if cts {
            word = word.enable_cts();
        }
        word
    }
}

} // verus!
