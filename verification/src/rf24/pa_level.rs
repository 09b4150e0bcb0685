//! The power amplifier level.
use vstd::prelude::*;

use crate::prelude::EsbPaLevel;

use super::{advanced, no_fail, ran, read_run, replayed, reply, write_run, History, Rf24, Rf24View, Run};
use crate::registers::RF_SETUP;
use crate::transcript::{Stop, Transcript};
use crate::types::{pa_level_bits, pa_level_of, PaLevel, PA_LEVEL_MASK};

verus! {

/// How [`Rf24::set_pa_level`] runs: it reads RF_SETUP, then writes it back
/// with the PA level bits replaced.
pub open spec fn set_pa_level_run(s: Rf24View, h: History, c: int, level: PaLevel) -> Run {
    read_run(s, h, c, RF_SETUP, 1).and_then(
        |s1: Rf24View, c1: int|
            write_run(s1, h, c1, RF_SETUP, (s1.io.buf[1] & !PA_LEVEL_MASK) | pa_level_bits(level)),
    )
}

impl EsbPaLevel for Rf24 {
    /// Read the PA level from the RF_SETUP register.
    fn get_pa_level(&mut self, t: &mut Transcript) -> (r: Result<PaLevel, Stop>)
        ensures
            advanced(r, old(t)@, final(t)@),
            no_fail(r),
            ran(r, final(t)@, final(self)@, read_run(old(self)@, old(t)@.history, old(t)@.cursor, RF_SETUP, 1)),
            r is Ok ==> r->Ok_0 == pa_level_of(reply(old(t)@.history, old(t)@.cursor)[1] & PA_LEVEL_MASK),
    {
        proof {
            reveal_with_fuel(replayed, 2);
        }
        self.spi_read(t, 1, RF_SETUP)?;
        Ok(PaLevel::from_bits(self.buf[1] & PA_LEVEL_MASK))
    }

    /// Set the PA level (see [`set_pa_level_run`]).
    fn set_pa_level(&mut self, t: &mut Transcript, level: PaLevel) -> (r: Result<(), Stop>)
        ensures
            advanced(r, old(t)@, final(t)@),
            no_fail(r),
            ran(
                r,
                final(t)@,
                final(self)@,
                set_pa_level_run(old(self)@, old(t)@.history, old(t)@.cursor, level),
            ),
    {
        self.spi_read(t, 1, RF_SETUP)?;
        let out = self.buf[1] & !PA_LEVEL_MASK | level.into_bits();
        self.spi_write_byte(t, RF_SETUP, out)
    }
}

} // verus!
