//! The data writing register.

use vstd::prelude::*;

verus! {

/// Write data into first-in first-out queue.
#[derive(Clone, Copy, Debug, PartialEq, Eq)]
pub struct DataWrite(u8);

impl View for DataWrite {
    type V = u8;

    closed spec fn view(&self) -> u8 {
        self.0
    }
}

impl Default for DataWrite {
    fn default() -> (data: Self)
        ensures
            data@ == 0,
    {
        DataWrite(0)
    }
}

impl DataWrite {
    /// The register value that queues `byte`.
    pub fn from_bits(byte: u8) -> (data: Self)
        ensures
            data@ == byte,
    {
        DataWrite(byte)
    }

    /// The byte that this register value queues.
    pub fn bits(self) -> (byte: u8)
        ensures
            byte == self@,
    {
        self.0
    }
}

} // verus!
