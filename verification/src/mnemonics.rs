//! Bit masks of the IRQ events in the CONFIG and STATUS registers.
use vstd::prelude::*;

verus! {

pub const MASK_RX_DR: u8 = 0x40;
pub const MASK_TX_DS: u8 = 0x20;
pub const MASK_MAX_RT: u8 = 0x10;

} // verus!
