//! Powering the radio up and down.
use vstd::prelude::*;

use crate::prelude::EsbPower;

use super::{act_run, advanced, done, no_fail, ran, write_run, History, Rf24, Rf24View, Run};
use crate::registers::CONFIG;
use crate::transcript::{ActionView, Stop, Transcript};
use crate::types::with_mask;

verus! {

/// The delay (in microseconds) that [`Rf24::power_up`] waits after powering
/// up, if any: the one given if it is not 0, and 5 ms if none is given.
pub open spec fn power_up_delay(delay: Option<u32>) -> Option<u32> {
    match delay {
        Some(d) => if d > 0 {
            Some(d)
        } else {
            None
        },
        None => Some(5000),
    }
}

/// How [`Rf24::power_down`] runs: it drives CE low, then writes the cached
/// CONFIG register with the power bit cleared, and caches that.
pub open spec fn power_down_run(s: Rf24View, h: History, c: int) -> Run {
    act_run(s, h, c, ActionView::SetCe(false)).and_then(
        |s1: Rf24View, c1: int|
            {
                let v = with_mask(s1.config_reg, 2, false);
                write_run(Rf24View { config_reg: v, ..s1 }, h, c1, CONFIG, v)
            },
    )
}

/// How [`Rf24::power_up`] runs: nothing if the cached CONFIG register says
/// that the radio is powered; else it writes CONFIG with the power bit set
/// (and caches it), then waits [`power_up_delay`].
pub open spec fn power_up_run(s: Rf24View, h: History, c: int, delay: Option<u32>) -> Run {
    if s.config_reg & 2 != 0 {
        done(s, c)
    } else {
        let v = with_mask(s.config_reg, 2, true);
        write_run(Rf24View { config_reg: v, ..s }, h, c, CONFIG, v).and_then(
            |s1: Rf24View, c1: int|
                match power_up_delay(delay) {
                    Some(us) => act_run(s1, h, c1, ActionView::DelayUs(us)),
                    None => done(s1, c1),
                },
        )
    }
}

impl EsbPower for Rf24 {
    /// Drive CE low and power the radio down (a sleep mode).
    fn power_down(&mut self, t: &mut Transcript) -> (r: Result<(), Stop>)
        ensures
            advanced(r, old(t)@, final(t)@),
            no_fail(r),
            ran(r, final(t)@, final(self)@, power_down_run(old(self)@, old(t)@.history, old(t)@.cursor)),
    {
        self.set_ce(t, false)?;
        self.config_reg = self.config_reg.with_power(false);
        self.spi_write_byte(t, CONFIG, self.config_reg.into_bits())
    }

    /// Power the radio up, unless it already is, and then wait for it to
    /// settle (see [`power_up_run`]).
    fn power_up(&mut self, t: &mut Transcript, delay: Option<u32>) -> (r: Result<(), Stop>)
        ensures
            advanced(r, old(t)@, final(t)@),
            no_fail(r),
            ran(
                r,
                final(t)@,
                final(self)@,
                power_up_run(old(self)@, old(t)@.history, old(t)@.cursor, delay),
            ),
    {
        if self.config_reg.power() {
            return Ok(());
        }
        self.config_reg = self.config_reg.with_power(true);
        self.spi_write_byte(t, CONFIG, self.config_reg.into_bits())?;
        match delay {
            Some(d) => {
                if d > 0 {
                    self.delay_us(t, d)?;
                }
            },
            None => {
                self.delay_us(t, 5000)?;
            },
        }
        Ok(())
    }

    /// Is the radio powered up (as cached)?
    fn is_powered(&self) -> (r: bool)
        ensures
            r == (self@.config_reg & 2 != 0),
    {
        self.config_reg.power()
    }
}

} // verus!
