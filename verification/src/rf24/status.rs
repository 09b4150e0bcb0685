//! The IRQ events and the STATUS register.
use vstd::prelude::*;

use crate::prelude::EsbStatus;

use super::{advanced, no_fail, ran, read_run, write_run, xfer_run, History, Rf24, Rf24View, Run};
use crate::bit_fields::Config;
use crate::commands::NOP;
use crate::registers::{CONFIG, STATUS};
use crate::transcript::{Stop, Transcript};
use crate::types::{StatusFlags, IRQ_MASK};

verus! {

/// The CONFIG register `config` with its IRQ bits set so that exactly the
/// events flagged in `flags` trigger the IRQ pin.
pub open spec fn config_with_irq(config: u8, flags: u8) -> u8 {
    (config & !IRQ_MASK) | (!flags & IRQ_MASK)
}

/// How [`Rf24::set_status_flags`] runs: it reads CONFIG and writes it back
/// with the IRQ bits replaced, which it then caches.
pub open spec fn set_status_flags_run(s: Rf24View, h: History, c: int, flags: u8) -> Run {
    read_run(s, h, c, CONFIG, 1).and_then(
        |s1: Rf24View, c1: int|
            {
                let v = config_with_irq(s1.io.buf[1], flags);
                write_run(Rf24View { config_reg: v, ..s1 }, h, c1, CONFIG, v)
            },
    )
}

/// How [`Rf24::clear_status_flags`] runs: it writes the flags to STATUS.
pub open spec fn clear_status_flags_run(s: Rf24View, h: History, c: int, flags: u8) -> Run {
    write_run(s, h, c, STATUS, flags & IRQ_MASK)
}

impl EsbStatus for Rf24 {
    /// Select which events trigger the IRQ pin: those whose flag is set in
    /// `flags` (see [`set_status_flags_run`]).
    fn set_status_flags(&mut self, t: &mut Transcript, flags: StatusFlags) -> (r: Result<
        (),
        Stop,
    >)
        ensures
            advanced(r, old(t)@, final(t)@),
            no_fail(r),
            ran(
                r,
                final(t)@,
                final(self)@,
                set_status_flags_run(old(self)@, old(t)@.history, old(t)@.cursor, flags@),
            ),
    {
        self.spi_read(t, 1, CONFIG)?;
        self.config_reg = Config::from_bits(
            self.buf[1] & !IRQ_MASK | (!flags.into_bits() & IRQ_MASK),
        );
        self.spi_write_byte(t, CONFIG, self.config_reg.into_bits())
    }

    /// Clear the events flagged in `flags` (writing 1 to a flag of the
    /// STATUS register clears it).
    fn clear_status_flags(&mut self, t: &mut Transcript, flags: StatusFlags) -> (r: Result<
        (),
        Stop,
    >)
        ensures
            advanced(r, old(t)@, final(t)@),
            no_fail(r),
            ran(
                r,
                final(t)@,
                final(self)@,
                clear_status_flags_run(old(self)@, old(t)@.history, old(t)@.cursor, flags@),
            ),
    {
        self.spi_write_byte(t, STATUS, flags.into_bits() & IRQ_MASK)
    }

    /// Fetch the STATUS register (with a NOP command).
    fn update(&mut self, t: &mut Transcript) -> (r: Result<(), Stop>)
        ensures
            advanced(r, old(t)@, final(t)@),
            no_fail(r),
            ran(r, final(t)@, final(self)@, xfer_run(old(self)@, old(t)@.history, old(t)@.cursor, seq![NOP])),
    {
        self.spi_command(t, NOP)
    }

    /// The flags of the STATUS register as last fetched.
    fn get_status_flags(&self, flags: &mut StatusFlags)
        ensures
            final(flags)@ == self@.io.status,
    {
        *flags = self.status;
    }
}

} // verus!
