//! The transmit configuration register.

use vstd::prelude::*;
use crate::uart::config::{Parity, StopBits, WordLength};
use crate::uart::word::{lemma_clear, lemma_set};

verus! {

/// Set where the transmitter is enabled.
pub const ENABLE: u32 = 0x1;

/// Set where the Clear-to-Send signal is honoured.
pub const CTS: u32 = 0x2;

/// Set in free-run mode.
pub const FREERUN: u32 = 0x4;

/// Set where the LIN protocol is transmitted.
pub const LIN_TRANSMIT: u32 = 0x8;

/// Set where a parity bit is sent.
pub const PARITY_ENABLE: u32 = 0x10;

/// Set where the parity bit is odd, clear where it is even.
pub const PARITY_MODE: u32 = 0x20;

/// Set where IR transmission is enabled.
pub const IR_TRANSMIT: u32 = 0x40;

/// Set where the output is inverted in IR mode.
pub const IR_INVERSE: u32 = 0x80;

/// The word length: the number of bits in a word, less one.
pub const WORD_LENGTH: u32 = 0x700;

/// The stop bits, in halves, less one.
pub const STOP_BITS: u32 = 0x1800;

/// The synchronize interval under LIN mode, in bits.
pub const LIN_BREAK_BITS: u32 = 0xe000;

/// The length of data that triggers the interrupt.
pub const TRANSFER_LENGTH: u32 = 0xff_0000;

/// The bits that the hardware defines no field for.
pub const RESERVED: u32 = 0xff00_0000;

/// Where the word length field starts.
pub const WORD_LENGTH_SHIFT: u32 = 8;

/// Where the stop bits field starts.
pub const STOP_BITS_SHIFT: u32 = 11;

/// Where the LIN break field starts.
pub const LIN_BREAK_BITS_SHIFT: u32 = 13;

/// Where the transfer length field starts.
pub const TRANSFER_LENGTH_SHIFT: u32 = 16;

/// Configuration structure for transmit feature.
#[derive(Clone, Copy, Debug, PartialEq, Eq)]
pub struct TransmitConfig(u32);

/// What a transmit configuration holds, field by field. Every bit of the
/// register word belongs to one of the fields.
pub struct TransmitFields {
    pub txd: bool,
    pub cts: bool,
    pub freerun: bool,
    pub lin_transmit: bool,
    /// Whether a parity bit is sent.
    pub parity_enable: bool,
    /// Whether the parity bit, where one is sent, is odd.
    pub parity_odd: bool,
    pub ir_transmit: bool,
    pub ir_inverse: bool,
    /// The number in the word length field.
    pub word_length_code: u32,
    pub stop_bits: StopBits,
    pub lin_break_bits: u8,
    pub transfer_length: u16,
    /// The bits that belong to no other field, each at its place in the word.
    pub reserved: u32,
}

impl TransmitFields {
    /// The parity check mode that the two parity fields spell.
    pub open spec fn parity(self) -> Parity {
        if !self.parity_enable {
            Parity::Off
        } else if self.parity_odd {
            Parity::Odd
        } else {
            Parity::Even
        }
    }

    /// The word length that the number in the word length field stands for,
    /// if it stands for one.
    pub open spec fn word_length(self) -> Option<WordLength> {
        word_length_of(self.word_length_code)
    }
}

/// The number that stands for a word length in the register.
pub open spec fn word_length_code(length: WordLength) -> u32 {
    match length {
        WordLength::Five => 4,
        WordLength::Six => 5,
        WordLength::Seven => 6,
        WordLength::Eight => 7,
    }
}

/// The word length that a number in the register stands for, if any.
pub open spec fn word_length_of(code: u32) -> Option<WordLength> {
    if code == 4 {
        Some(WordLength::Five)
    } else if code == 5 {
        Some(WordLength::Six)
    } else if code == 6 {
        Some(WordLength::Seven)
    } else if code == 7 {
        Some(WordLength::Eight)
    } else {
        None
    }
}

/// The number that stands for a stop bit setting in the register.
pub open spec fn stop_bits_code(stop: StopBits) -> u32 {
    match stop {
        StopBits::ZeroPointFive => 0,
        StopBits::One => 1,
        StopBits::OnePointFive => 2,
        StopBits::Two => 3,
    }
}

/// The stop bit setting that a number in the register stands for.
pub open spec fn stop_bits_of(code: u32) -> StopBits {
    if code == 0 {
        StopBits::ZeroPointFive
    } else if code == 1 {
        StopBits::One
    } else if code == 2 {
        StopBits::OnePointFive
    } else {
        StopBits::Two
    }
}

/// What a register word says as a transmit configuration.
pub open spec fn transmit_fields(bits: u32) -> TransmitFields {
    TransmitFields {
        txd: bits & ENABLE != 0,
        cts: bits & CTS != 0,
        freerun: bits & FREERUN != 0,
        lin_transmit: bits & LIN_TRANSMIT != 0,
        parity_enable: bits & PARITY_ENABLE != 0,
        parity_odd: bits & PARITY_MODE != 0,
        ir_transmit: bits & IR_TRANSMIT != 0,
        ir_inverse: bits & IR_INVERSE != 0,
        word_length_code: (bits & WORD_LENGTH) >> WORD_LENGTH_SHIFT,
        stop_bits: stop_bits_of((bits & STOP_BITS) >> STOP_BITS_SHIFT),
        lin_break_bits: ((bits & LIN_BREAK_BITS) >> LIN_BREAK_BITS_SHIFT) as u8,
        transfer_length: ((bits & TRANSFER_LENGTH) >> TRANSFER_LENGTH_SHIFT) as u16,
        reserved: bits & RESERVED,
    }
}

/// Two words that differ in nothing but the transmit enable bit agree in every other
/// field.
proof fn lemma_frame_enable(before: u32, after: u32)
    by (bit_vector)
    requires
        after & !ENABLE == before & !ENABLE,
    ensures
        after & CTS == before & CTS,
        after & FREERUN == before & FREERUN,
        after & LIN_TRANSMIT == before & LIN_TRANSMIT,
        after & PARITY_ENABLE == before & PARITY_ENABLE,
        after & PARITY_MODE == before & PARITY_MODE,
        after & IR_TRANSMIT == before & IR_TRANSMIT,
        after & IR_INVERSE == before & IR_INVERSE,
        after & WORD_LENGTH == before & WORD_LENGTH,
        after & STOP_BITS == before & STOP_BITS,
        after & LIN_BREAK_BITS == before & LIN_BREAK_BITS,
        after & TRANSFER_LENGTH == before & TRANSFER_LENGTH,
        after & RESERVED == before & RESERVED,
{
}

/// Two words that differ in nothing but the Clear-to-Send bit agree in every other
/// field.
proof fn lemma_frame_cts(before: u32, after: u32)
    by (bit_vector)
    requires
        after & !CTS == before & !CTS,
    ensures
        after & ENABLE == before & ENABLE,
        after & FREERUN == before & FREERUN,
        after & LIN_TRANSMIT == before & LIN_TRANSMIT,
        after & PARITY_ENABLE == before & PARITY_ENABLE,
        after & PARITY_MODE == before & PARITY_MODE,
        after & IR_TRANSMIT == before & IR_TRANSMIT,
        after & IR_INVERSE == before & IR_INVERSE,
        after & WORD_LENGTH == before & WORD_LENGTH,
        after & STOP_BITS == before & STOP_BITS,
        after & LIN_BREAK_BITS == before & LIN_BREAK_BITS,
        after & TRANSFER_LENGTH == before & TRANSFER_LENGTH,
        after & RESERVED == before & RESERVED,
{
}

/// Two words that differ in nothing but the free-run bit agree in every other
/// field.
proof fn lemma_frame_freerun(before: u32, after: u32)
    by (bit_vector)
    requires
        after & !FREERUN == before & !FREERUN,
    ensures
        after & ENABLE == before & ENABLE,
        after & CTS == before & CTS,
        after & LIN_TRANSMIT == before & LIN_TRANSMIT,
        after & PARITY_ENABLE == before & PARITY_ENABLE,
        after & PARITY_MODE == before & PARITY_MODE,
        after & IR_TRANSMIT == before & IR_TRANSMIT,
        after & IR_INVERSE == before & IR_INVERSE,
        after & WORD_LENGTH == before & WORD_LENGTH,
        after & STOP_BITS == before & STOP_BITS,
        after & LIN_BREAK_BITS == before & LIN_BREAK_BITS,
        after & TRANSFER_LENGTH == before & TRANSFER_LENGTH,
        after & RESERVED == before & RESERVED,
{
}

/// Two words that differ in nothing but the LIN transmit bit agree in every other
/// field.
proof fn lemma_frame_lin_transmit(before: u32, after: u32)
    by (bit_vector)
    requires
        after & !LIN_TRANSMIT == before & !LIN_TRANSMIT,
    ensures
        after & ENABLE == before & ENABLE,
        after & CTS == before & CTS,
        after & FREERUN == before & FREERUN,
        after & PARITY_ENABLE == before & PARITY_ENABLE,
        after & PARITY_MODE == before & PARITY_MODE,
        after & IR_TRANSMIT == before & IR_TRANSMIT,
        after & IR_INVERSE == before & IR_INVERSE,
        after & WORD_LENGTH == before & WORD_LENGTH,
        after & STOP_BITS == before & STOP_BITS,
        after & LIN_BREAK_BITS == before & LIN_BREAK_BITS,
        after & TRANSFER_LENGTH == before & TRANSFER_LENGTH,
        after & RESERVED == before & RESERVED,
{
}

/// Two words that differ in nothing but the two parity bits agree in every other
/// field.
proof fn lemma_frame_parity(before: u32, after: u32)
    by (bit_vector)
    requires
        after & !(PARITY_ENABLE | PARITY_MODE) == before & !(PARITY_ENABLE | PARITY_MODE),
    ensures
        after & ENABLE == before & ENABLE,
        after & CTS == before & CTS,
        after & FREERUN == before & FREERUN,
        after & LIN_TRANSMIT == before & LIN_TRANSMIT,
        after & IR_TRANSMIT == before & IR_TRANSMIT,
        after & IR_INVERSE == before & IR_INVERSE,
        after & WORD_LENGTH == before & WORD_LENGTH,
        after & STOP_BITS == before & STOP_BITS,
        after & LIN_BREAK_BITS == before & LIN_BREAK_BITS,
        after & TRANSFER_LENGTH == before & TRANSFER_LENGTH,
        after & RESERVED == before & RESERVED,
{
}

/// Two words that differ in nothing but the IR transmit bit agree in every other
/// field.
proof fn lemma_frame_ir_transmit(before: u32, after: u32)
    by (bit_vector)
    requires
        after & !IR_TRANSMIT == before & !IR_TRANSMIT,
    ensures
        after & ENABLE == before & ENABLE,
        after & CTS == before & CTS,
        after & FREERUN == before & FREERUN,
        after & LIN_TRANSMIT == before & LIN_TRANSMIT,
        after & PARITY_ENABLE == before & PARITY_ENABLE,
        after & PARITY_MODE == before & PARITY_MODE,
        after & IR_INVERSE == before & IR_INVERSE,
        after & WORD_LENGTH == before & WORD_LENGTH,
        after & STOP_BITS == before & STOP_BITS,
        after & LIN_BREAK_BITS == before & LIN_BREAK_BITS,
        after & TRANSFER_LENGTH == before & TRANSFER_LENGTH,
        after & RESERVED == before & RESERVED,
{
}

/// Two words that differ in nothing but the IR inverse bit agree in every other
/// field.
proof fn lemma_frame_ir_inverse(before: u32, after: u32)
    by (bit_vector)
    requires
        after & !IR_INVERSE == before & !IR_INVERSE,
    ensures
        after & ENABLE == before & ENABLE,
        after & CTS == before & CTS,
        after & FREERUN == before & FREERUN,
        after & LIN_TRANSMIT == before & LIN_TRANSMIT,
        after & PARITY_ENABLE == before & PARITY_ENABLE,
        after & PARITY_MODE == before & PARITY_MODE,
        after & IR_TRANSMIT == before & IR_TRANSMIT,
        after & WORD_LENGTH == before & WORD_LENGTH,
        after & STOP_BITS == before & STOP_BITS,
        after & LIN_BREAK_BITS == before & LIN_BREAK_BITS,
        after & TRANSFER_LENGTH == before & TRANSFER_LENGTH,
        after & RESERVED == before & RESERVED,
{
}

/// Two words that differ in nothing but the word length field agree in every other
/// field.
proof fn lemma_frame_word_length(before: u32, after: u32)
    by (bit_vector)
    requires
        after & !WORD_LENGTH == before & !WORD_LENGTH,
    ensures
        after & ENABLE == before & ENABLE,
        after & CTS == before & CTS,
        after & FREERUN == before & FREERUN,
        after & LIN_TRANSMIT == before & LIN_TRANSMIT,
        after & PARITY_ENABLE == before & PARITY_ENABLE,
        after & PARITY_MODE == before & PARITY_MODE,
        after & IR_TRANSMIT == before & IR_TRANSMIT,
        after & IR_INVERSE == before & IR_INVERSE,
        after & STOP_BITS == before & STOP_BITS,
        after & LIN_BREAK_BITS == before & LIN_BREAK_BITS,
        after & TRANSFER_LENGTH == before & TRANSFER_LENGTH,
        after & RESERVED == before & RESERVED,
{
}

/// Two words that differ in nothing but the stop bits field agree in every other
/// field.
proof fn lemma_frame_stop_bits(before: u32, after: u32)
    by (bit_vector)
    requires
        after & !STOP_BITS == before & !STOP_BITS,
    ensures
        after & ENABLE == before & ENABLE,
        after & CTS == before & CTS,
        after & FREERUN == before & FREERUN,
        after & LIN_TRANSMIT == before & LIN_TRANSMIT,
        after & PARITY_ENABLE == before & PARITY_ENABLE,
        after & PARITY_MODE == before & PARITY_MODE,
        after & IR_TRANSMIT == before & IR_TRANSMIT,
        after & IR_INVERSE == before & IR_INVERSE,
        after & WORD_LENGTH == before & WORD_LENGTH,
        after & LIN_BREAK_BITS == before & LIN_BREAK_BITS,
        after & TRANSFER_LENGTH == before & TRANSFER_LENGTH,
        after & RESERVED == before & RESERVED,
{
}

/// Two words that differ in nothing but the LIN break field agree in every other
/// field.
proof fn lemma_frame_lin_break_bits(before: u32, after: u32)
    by (bit_vector)
    requires
        after & !LIN_BREAK_BITS == before & !LIN_BREAK_BITS,
    ensures
        after & ENABLE == before & ENABLE,
        after & CTS == before & CTS,
        after & FREERUN == before & FREERUN,
        after & LIN_TRANSMIT == before & LIN_TRANSMIT,
        after & PARITY_ENABLE == before & PARITY_ENABLE,
        after & PARITY_MODE == before & PARITY_MODE,
        after & IR_TRANSMIT == before & IR_TRANSMIT,
        after & IR_INVERSE == before & IR_INVERSE,
        after & WORD_LENGTH == before & WORD_LENGTH,
        after & STOP_BITS == before & STOP_BITS,
        after & TRANSFER_LENGTH == before & TRANSFER_LENGTH,
        after & RESERVED == before & RESERVED,
{
}

/// Two words that differ in nothing but the transfer length field agree in every other
/// field.
proof fn lemma_frame_transfer_length(before: u32, after: u32)
    by (bit_vector)
    requires
        after & !TRANSFER_LENGTH == before & !TRANSFER_LENGTH,
    ensures
        after & ENABLE == before & ENABLE,
        after & CTS == before & CTS,
        after & FREERUN == before & FREERUN,
        after & LIN_TRANSMIT == before & LIN_TRANSMIT,
        after & PARITY_ENABLE == before & PARITY_ENABLE,
        after & PARITY_MODE == before & PARITY_MODE,
        after & IR_TRANSMIT == before & IR_TRANSMIT,
        after & IR_INVERSE == before & IR_INVERSE,
        after & WORD_LENGTH == before & WORD_LENGTH,
        after & STOP_BITS == before & STOP_BITS,
        after & LIN_BREAK_BITS == before & LIN_BREAK_BITS,
        after & RESERVED == before & RESERVED,
{
}

/// What setting the parity bits does to them, whatever is set.
proof fn lemma_parity_bits(word: u32)
    by (bit_vector)
    ensures
        ((word | PARITY_ENABLE) & !PARITY_MODE) & !(PARITY_ENABLE | PARITY_MODE) == word
            & !(PARITY_ENABLE | PARITY_MODE),
        ((word | PARITY_ENABLE) & !PARITY_MODE) & PARITY_ENABLE != 0,
        ((word | PARITY_ENABLE) & !PARITY_MODE) & PARITY_MODE == 0,
        (word | PARITY_ENABLE | PARITY_MODE) & !(PARITY_ENABLE | PARITY_MODE) == word
            & !(PARITY_ENABLE | PARITY_MODE),
        (word | PARITY_ENABLE | PARITY_MODE) & PARITY_ENABLE != 0,
        (word | PARITY_ENABLE | PARITY_MODE) & PARITY_MODE != 0,
        (word & !PARITY_ENABLE) & !(PARITY_ENABLE | PARITY_MODE) == word
            & !(PARITY_ENABLE | PARITY_MODE),
        (word & !PARITY_ENABLE) & PARITY_ENABLE == 0,
        (word & !PARITY_ENABLE) & PARITY_MODE == word & PARITY_MODE,
{
}

/// A word length code that is written into its field is read back from it,
/// and no other bit changes.
proof fn lemma_insert_word_length(word: u32, code: u32)
    by (bit_vector)
    requires
        code <= 7,
    ensures
        (word & !WORD_LENGTH | code << WORD_LENGTH_SHIFT) & !WORD_LENGTH == word & !WORD_LENGTH,
        ((word & !WORD_LENGTH | code << WORD_LENGTH_SHIFT) & WORD_LENGTH) >> WORD_LENGTH_SHIFT
            == code,
{
}

/// A stop bits code that is written into its field is read back from it, and
/// no other bit changes.
proof fn lemma_insert_stop_bits(word: u32, code: u32)
    by (bit_vector)
    requires
        code <= 3,
    ensures
        (word & !STOP_BITS | code << STOP_BITS_SHIFT) & !STOP_BITS == word & !STOP_BITS,
        ((word & !STOP_BITS | code << STOP_BITS_SHIFT) & STOP_BITS) >> STOP_BITS_SHIFT == code,
{
}

/// A LIN break interval of at most seven bits that is written into its field
/// is read back from it, and no other bit changes.
proof fn lemma_insert_lin_break_bits(word: u32, interval: u32)
    by (bit_vector)
    requires
        interval <= 7,
    ensures
        (word & !LIN_BREAK_BITS | interval << LIN_BREAK_BITS_SHIFT) & !LIN_BREAK_BITS == word
            & !LIN_BREAK_BITS,
        ((word & !LIN_BREAK_BITS | interval << LIN_BREAK_BITS_SHIFT) & LIN_BREAK_BITS)
            >> LIN_BREAK_BITS_SHIFT == interval,
{
}

/// A transfer length of at most 255 that is written into its field is read
/// back from it, and no other bit changes.
proof fn lemma_insert_transfer_length(word: u32, length: u32)
    by (bit_vector)
    requires
        length <= 0xff,
    ensures
        (word & !TRANSFER_LENGTH | length << TRANSFER_LENGTH_SHIFT) & !TRANSFER_LENGTH == word
            & !TRANSFER_LENGTH,
        ((word & !TRANSFER_LENGTH | length << TRANSFER_LENGTH_SHIFT) & TRANSFER_LENGTH)
            >> TRANSFER_LENGTH_SHIFT == length,
{
}

/// A word of zeros holds nothing in any field.
pub proof fn lemma_zero_word()
    by (bit_vector)
    ensures
        0u32 & ENABLE == 0,
        0u32 & CTS == 0,
        0u32 & FREERUN == 0,
        0u32 & LIN_TRANSMIT == 0,
        0u32 & PARITY_ENABLE == 0,
        0u32 & PARITY_MODE == 0,
        0u32 & IR_TRANSMIT == 0,
        0u32 & IR_INVERSE == 0,
        (0u32 & WORD_LENGTH) >> WORD_LENGTH_SHIFT == 0,
        (0u32 & STOP_BITS) >> STOP_BITS_SHIFT == 0,
        (0u32 & LIN_BREAK_BITS) >> LIN_BREAK_BITS_SHIFT == 0,
        (0u32 & TRANSFER_LENGTH) >> TRANSFER_LENGTH_SHIFT == 0,
        0u32 & RESERVED == 0,
{
}

/// Two words that hold the same in every field are the same word.
proof fn lemma_fields_cover_the_word(a: u32, b: u32)
    by (bit_vector)
    requires
        (a & ENABLE != 0) == (b & ENABLE != 0),
        (a & CTS != 0) == (b & CTS != 0),
        (a & FREERUN != 0) == (b & FREERUN != 0),
        (a & LIN_TRANSMIT != 0) == (b & LIN_TRANSMIT != 0),
        (a & PARITY_ENABLE != 0) == (b & PARITY_ENABLE != 0),
        (a & PARITY_MODE != 0) == (b & PARITY_MODE != 0),
        (a & IR_TRANSMIT != 0) == (b & IR_TRANSMIT != 0),
        (a & IR_INVERSE != 0) == (b & IR_INVERSE != 0),
        (a & WORD_LENGTH) >> WORD_LENGTH_SHIFT == (b & WORD_LENGTH) >> WORD_LENGTH_SHIFT,
        (a & STOP_BITS) >> STOP_BITS_SHIFT == (b & STOP_BITS) >> STOP_BITS_SHIFT,
        (a & LIN_BREAK_BITS) >> LIN_BREAK_BITS_SHIFT == (b & LIN_BREAK_BITS)
            >> LIN_BREAK_BITS_SHIFT,
        (a & TRANSFER_LENGTH) >> TRANSFER_LENGTH_SHIFT == (b & TRANSFER_LENGTH)
            >> TRANSFER_LENGTH_SHIFT,
        a & RESERVED == b & RESERVED,
    ensures
        a == b,
{
}

/// The fields are a faithful picture of the register word: two words that
/// hold the same in every field are the same word.
pub proof fn lemma_fields_pin_the_word(a: u32, b: u32)
    requires
        transmit_fields(a) == transmit_fields(b),
    ensures
        a == b,
{
    lemma_field_ranges(a);
    lemma_field_ranges(b);
    lemma_fields_cover_the_word(a, b);
}

/// How large the numbers in the fields of a register word can be.
proof fn lemma_field_ranges(word: u32)
    by (bit_vector)
    ensures
        (word & WORD_LENGTH) >> WORD_LENGTH_SHIFT <= 7,
        (word & STOP_BITS) >> STOP_BITS_SHIFT <= 3,
        (word & LIN_BREAK_BITS) >> LIN_BREAK_BITS_SHIFT <= 7,
        (word & TRANSFER_LENGTH) >> TRANSFER_LENGTH_SHIFT <= 0xff,
{
}

impl View for TransmitConfig {
    type V = u32;

    closed spec fn view(&self) -> u32 {
        self.0
    }
}

impl Default for TransmitConfig {
    fn default() -> (config: Self)
        ensures
            config@ == 0,
    {
        TransmitConfig(0)
    }
}

impl TransmitConfig {
    /// What this configuration says, field by field.
    pub open spec fn fields(self) -> TransmitFields {
        transmit_fields(self@)
    }

    /// The configuration that a register word spells.
    pub fn from_bits(bits: u32) -> (config: Self)
        ensures
            config@ == bits,
    {
        TransmitConfig(bits)
    }

    /// The register word that spells this configuration.
    pub fn bits(self) -> (bits: u32)
        ensures
            bits == self@,
    {
        self.0
    }

    /// Enable transmit.
    pub fn enable_txd(self) -> (config: Self)
        ensures
            config@ == self@ | ENABLE,
            config.fields() == (TransmitFields { txd: true, ..self.fields() }),
    {
        proof {
            lemma_set(self.0, ENABLE);
            lemma_frame_enable(self.0, self.0 | ENABLE);
        }
        TransmitConfig(self.0 | ENABLE)
    }

    /// Disable transmit.
    pub fn disable_txd(self) -> (config: Self)
        ensures
            config@ == self@ & !ENABLE,
            config.fields() == (TransmitFields { txd: false, ..self.fields() }),
    {
        proof {
            lemma_clear(self.0, ENABLE);
            lemma_frame_enable(self.0, self.0 & !ENABLE);
        }
        TransmitConfig(self.0 & !ENABLE)
    }

    /// Check if transmit is enabled.
    pub fn is_txd_enabled(self) -> (enabled: bool)
        ensures
            enabled == self.fields().txd,
    {
        self.0 & ENABLE != 0
    }

    /// Enable Clear-to-Send signal.
    pub fn enable_cts(self) -> (config: Self)
        ensures
            config@ == self@ | CTS,
            config.fields() == (TransmitFields { cts: true, ..self.fields() }),
    {
        proof {
            lemma_set(self.0, CTS);
            lemma_frame_cts(self.0, self.0 | CTS);
        }
        TransmitConfig(self.0 | CTS)
    }

    /// Disable Clear-to-Send signal.
    pub fn disable_cts(self) -> (config: Self)
        ensures
            config@ == self@ & !CTS,
            config.fields() == (TransmitFields { cts: false, ..self.fields() }),
    {
        proof {
            lemma_clear(self.0, CTS);
            lemma_frame_cts(self.0, self.0 & !CTS);
        }
        TransmitConfig(self.0 & !CTS)
    }

    /// Check if Clear-to-Send signal is enabled.
    pub fn is_cts_enabled(self) -> (enabled: bool)
        ensures
            enabled == self.fields().cts,
    {
        self.0 & CTS != 0
    }

    /// Enable free-run mode.
    pub fn enable_freerun(self) -> (config: Self)
        ensures
            config@ == self@ | FREERUN,
            config.fields() == (TransmitFields { freerun: true, ..self.fields() }),
    {
        proof {
            lemma_set(self.0, FREERUN);
            lemma_frame_freerun(self.0, self.0 | FREERUN);
        }
        TransmitConfig(self.0 | FREERUN)
    }

    /// Disable free-run mode.
    pub fn disable_freerun(self) -> (config: Self)
        ensures
            config@ == self@ & !FREERUN,
            config.fields() == (TransmitFields { freerun: false, ..self.fields() }),
    {
        proof {
            lemma_clear(self.0, FREERUN);
            lemma_frame_freerun(self.0, self.0 & !FREERUN);
        }
        TransmitConfig(self.0 & !FREERUN)
    }

    /// Check if free-run mode is enabled.
    pub fn is_freerun_enabled(self) -> (enabled: bool)
        ensures
            enabled == self.fields().freerun,
    {
        self.0 & FREERUN != 0
    }

    /// Enable LIN protocol transmission.
    pub fn enable_lin_transmit(self) -> (config: Self)
        ensures
            config@ == self@ | LIN_TRANSMIT,
            config.fields() == (TransmitFields { lin_transmit: true, ..self.fields() }),
    {
        proof {
            lemma_set(self.0, LIN_TRANSMIT);
            lemma_frame_lin_transmit(self.0, self.0 | LIN_TRANSMIT);
        }
        TransmitConfig(self.0 | LIN_TRANSMIT)
    }

    /// Disable LIN protocol transmission.
    pub fn disable_lin_transmit(self) -> (config: Self)
        ensures
            config@ == self@ & !LIN_TRANSMIT,
            config.fields() == (TransmitFields { lin_transmit: false, ..self.fields() }),
    {
        proof {
            lemma_clear(self.0, LIN_TRANSMIT);
            lemma_frame_lin_transmit(self.0, self.0 & !LIN_TRANSMIT);
        }
        TransmitConfig(self.0 & !LIN_TRANSMIT)
    }

    /// Check if LIN protocol transmission is enabled.
    pub fn is_lin_transmit_enabled(self) -> (enabled: bool)
        ensures
            enabled == self.fields().lin_transmit,
    {
        self.0 & LIN_TRANSMIT != 0
    }

    /// Set parity check mode.
    pub fn set_parity(self, parity: Parity) -> (config: Self)
        ensures
            config@ == match parity {
                Parity::Even => (self@ | PARITY_ENABLE) & !PARITY_MODE,
                Parity::Odd => self@ | PARITY_ENABLE | PARITY_MODE,
                Parity::Off => self@ & !PARITY_ENABLE,
            },
            config.fields() == (TransmitFields {
                parity_enable: parity != Parity::Off,
                parity_odd: match parity {
                    Parity::Even => false,
                    Parity::Odd => true,
                    Parity::Off => self.fields().parity_odd,
                },
                ..self.fields()
            }),
            config.fields().parity() == parity,
    {
        let bits: u32 = match parity {
            Parity::Even => (self.0 | PARITY_ENABLE) & !PARITY_MODE,
            Parity::Odd => self.0 | PARITY_ENABLE | PARITY_MODE,
            Parity::Off => self.0 & !PARITY_ENABLE,
        };
        proof {
            lemma_parity_bits(self.0);
            lemma_frame_parity(self.0, bits);
        }
        TransmitConfig(bits)
    }

    /// Get parity check mode.
    pub fn get_parity(self) -> (parity: Parity)
        ensures
            parity == self.fields().parity(),
    {
        if self.0 & PARITY_ENABLE == 0 {
            Parity::Off
        } else if self.0 & PARITY_MODE == 0 {
            Parity::Even
        } else {
            Parity::Odd
        }
    }

    /// Enable IR transmission.
    pub fn enable_ir_transmit(self) -> (config: Self)
        ensures
            config@ == self@ | IR_TRANSMIT,
            config.fields() == (TransmitFields { ir_transmit: true, ..self.fields() }),
    {
        proof {
            lemma_set(self.0, IR_TRANSMIT);
            lemma_frame_ir_transmit(self.0, self.0 | IR_TRANSMIT);
        }
        TransmitConfig(self.0 | IR_TRANSMIT)
    }

    /// Disable IR transmission.
    pub fn disable_ir_transmit(self) -> (config: Self)
        ensures
            config@ == self@ & !IR_TRANSMIT,
            config.fields() == (TransmitFields { ir_transmit: false, ..self.fields() }),
    {
        proof {
            lemma_clear(self.0, IR_TRANSMIT);
            lemma_frame_ir_transmit(self.0, self.0 & !IR_TRANSMIT);
        }
        TransmitConfig(self.0 & !IR_TRANSMIT)
    }

    /// Check if IR transmission is enabled.
    pub fn is_ir_transmit_enabled(self) -> (enabled: bool)
        ensures
            enabled == self.fields().ir_transmit,
    {
        self.0 & IR_TRANSMIT != 0
    }

    /// Invert transmit signal output in IR mode.
    pub fn enable_ir_inverse(self) -> (config: Self)
        ensures
            config@ == self@ | IR_INVERSE,
            config.fields() == (TransmitFields { ir_inverse: true, ..self.fields() }),
    {
        proof {
            lemma_set(self.0, IR_INVERSE);
            lemma_frame_ir_inverse(self.0, self.0 | IR_INVERSE);
        }
        TransmitConfig(self.0 | IR_INVERSE)
    }

    /// Don't invert transmit signal output in IR mode.
    pub fn disable_ir_inverse(self) -> (config: Self)
        ensures
            config@ == self@ & !IR_INVERSE,
            config.fields() == (TransmitFields { ir_inverse: false, ..self.fields() }),
    {
        proof {
            lemma_clear(self.0, IR_INVERSE);
            lemma_frame_ir_inverse(self.0, self.0 & !IR_INVERSE);
        }
        TransmitConfig(self.0 & !IR_INVERSE)
    }

    /// Check if transmit signal output in IR mode is inverted.
    pub fn is_ir_inverse_enabled(self) -> (enabled: bool)
        ensures
            enabled == self.fields().ir_inverse,
    {
        self.0 & IR_INVERSE != 0
    }

    /// Set word length.
    pub fn set_word_length(self, val: WordLength) -> (config: Self)
        ensures
            config@ == self@ & !WORD_LENGTH | word_length_code(val) << WORD_LENGTH_SHIFT,
            config.fields() == (TransmitFields {
                word_length_code: word_length_code(val),
                ..self.fields()
            }),
            config.fields().word_length() == Some(val),
    {
        let code: u32 = match val {
            WordLength::Five => 4,
            WordLength::Six => 5,
            WordLength::Seven => 6,
            WordLength::Eight => 7,
        };
        let bits: u32 = self.0 & !WORD_LENGTH | code << WORD_LENGTH_SHIFT;
        proof {
            lemma_insert_word_length(self.0, code);
            lemma_frame_word_length(self.0, bits);
        }
        TransmitConfig(bits)
    }

    /// Get word length.
    ///
    /// The field must hold a number that stands for a word length, as it does
    /// once `set_word_length` has written it.
    pub fn word_length(self) -> (length: WordLength)
        requires
            self.fields().word_length() is Some,
        ensures
            Some(length) == self.fields().word_length(),
    {
        let code: u32 = (self.0 & WORD_LENGTH) >> WORD_LENGTH_SHIFT;
        if code == 4 {
            WordLength::Five
        } else if code == 5 {
            WordLength::Six
        } else if code == 6 {
            WordLength::Seven
        } else {
            WordLength::Eight
        }
    }

    /// Set stop bit configuration.
    pub fn set_stop_bits(self, val: StopBits) -> (config: Self)
        ensures
            config@ == self@ & !STOP_BITS | stop_bits_code(val) << STOP_BITS_SHIFT,
            config.fields() == (TransmitFields { stop_bits: val, ..self.fields() }),
    {
        let code: u32 = match val {
            StopBits::ZeroPointFive => 0,
            StopBits::One => 1,
            StopBits::OnePointFive => 2,
            StopBits::Two => 3,
        };
        let bits: u32 = self.0 & !STOP_BITS | code << STOP_BITS_SHIFT;
        proof {
            lemma_insert_stop_bits(self.0, code);
            lemma_frame_stop_bits(self.0, bits);
        }
        TransmitConfig(bits)
    }

    /// Get stop bit configuration.
    pub fn stop_bits(self) -> (stop: StopBits)
        ensures
            stop == self.fields().stop_bits,
    {
        let code: u32 = (self.0 & STOP_BITS) >> STOP_BITS_SHIFT;
        if code == 0 {
            StopBits::ZeroPointFive
        } else if code == 1 {
            StopBits::One
        } else if code == 2 {
            StopBits::OnePointFive
        } else {
            StopBits::Two
        }
    }

    /// Set synchronize interval under LIN mode.
    ///
    /// # Parameters
    ///
    /// * `bits` - Interval in bits, the value should be 0 ~ 7. A larger one
    ///   spills into the fields above this one.
    pub fn set_lin_break_bits(self, bits: u8) -> (config: Self)
        ensures
            config@ == self@ & !LIN_BREAK_BITS | (bits as u32) << LIN_BREAK_BITS_SHIFT,
            bits <= 7 ==> config.fields() == (TransmitFields {
                lin_break_bits: bits,
                ..self.fields()
            }),
    {
        let word: u32 = self.0 & !LIN_BREAK_BITS | (bits as u32) << LIN_BREAK_BITS_SHIFT;
        proof {
            if bits <= 7 {
                lemma_insert_lin_break_bits(self.0, bits as u32);
                lemma_frame_lin_break_bits(self.0, word);
            }
        }
        TransmitConfig(word)
    }

    /// Get synchronize interval under LIN mode.
    ///
    /// Return value is 0 ~ 7, represent in bits.
    pub fn lin_break_bits(self) -> (bits: u8)
        ensures
            bits == self.fields().lin_break_bits,
            bits <= 7,
    {
        proof {
            lemma_field_ranges(self.0);
        }
        ((self.0 & LIN_BREAK_BITS) >> LIN_BREAK_BITS_SHIFT) as u8
    }

    /// Trigger interrupt when specified length of data is send.
    ///
    /// NOTE: This bit is not valid when it is running under free-run mode.
    ///
    /// The field is eight bits wide: a length above 255 spills into the bits
    /// above it.
    pub fn set_transfer_length(self, length: u16) -> (config: Self)
        ensures
            config@ == self@ & !TRANSFER_LENGTH | (length as u32) << TRANSFER_LENGTH_SHIFT,
            length <= 0xff ==> config.fields() == (TransmitFields {
                transfer_length: length,
                ..self.fields()
            }),
    {
        let word: u32 = self.0 & !TRANSFER_LENGTH | (length as u32) << TRANSFER_LENGTH_SHIFT;
        proof {
            if length <= 0xff {
                lemma_insert_transfer_length(self.0, length as u32);
                lemma_frame_transfer_length(self.0, word);
            }
        }
        TransmitConfig(word)
    }

    /// Get the length of data that triggers the interrupt.
    pub fn transfer_length(self) -> (length: u16)
        ensures
            length == self.fields().transfer_length,
            length <= 0xff,
    {
        proof {
            lemma_field_ranges(self.0);
        }
        ((self.0 & TRANSFER_LENGTH) >> TRANSFER_LENGTH_SHIFT) as u16
    }
}

} // verus!
