//! Support code for Bouffalo Lab chips: the value types of the UART
//! peripheral's registers, and a checker for ROM boot images.
//!
//! Every function in this crate carries a contract, and Verus proves that the
//! function keeps it. The one thing that is believed rather than proved is
//! what the `sha2` crate computes; `image::digest` says what is believed.

pub mod image;
pub mod uart;
