//! PS/2 controller interface: fixed port numbers and the meaning of the
//! status bits.
//!
//! The single-byte port reads and writes themselves are hardware access and
//! live outside this crate; the polling layer reads the status port and asks
//! these predicates what the byte means. Status bit 0 (output buffer full)
//! says a data byte is ready to read; status bit 1 (input buffer full) says
//! the controller is still processing a prior command, and a command byte
//! must not be written until it clears.

use vstd::prelude::*;

verus! {

/// Data port: read a byte from the device, write a byte to it.
pub const KBD_DATA: u16 = 0x60;

/// Status register, read-only.
pub const KBD_STAT: u16 = 0x64;

/// Command register, write-only; commands go to the controller itself.
pub const KBD_CMD: u16 = 0x64;

/// Status flag: output buffer full, a byte is ready in the data port.
pub const STAT_OBF: u8 = 1 << 0;

/// Status flag: input buffer full, the controller is still busy.
pub const STAT_IBF: u8 = 1 << 1;

/// Whether a status byte reports data ready to read from the data port.
pub fn data_available(status: u8) -> (ready: bool)
    ensures
        ready == (status & STAT_OBF != 0),
{
    status & STAT_OBF != 0
}

/// Whether a status byte reports the controller busy with earlier input; a
/// command write waits for this to clear.
pub fn controller_busy(status: u8) -> (busy: bool)
    ensures
        busy == (status & STAT_IBF != 0),
{
    status & STAT_IBF != 0
}

} // verus!
