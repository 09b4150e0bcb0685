//! The RX pipes and the address length.
use vstd::prelude::*;

use crate::prelude::EsbPipe;

use super::{
    advanced, corrupt, done, failed, no_fail, ran, read_run, replayed, reply, write_run, xfer_run, History,
    Rf24, Rf24View, Run,
};
use crate::bit_fields::{clamp, clamp_u8};
use crate::commands::W_REGISTER;
use crate::config::{copy_prefix5, overwrite};
use crate::registers::{EN_RXADDR, RX_ADDR_P0, SETUP_AW};
use crate::transcript::{Stop, Transcript};
use crate::types::Nrf24Error;

verus! {

/// How many bytes of an address of `len` bytes [`Rf24::open_rx_pipe`]
/// writes for pipe 0 or 1: no more than the cached address length.
pub open spec fn open_width(s: Rf24View, len: int) -> int {
    if len < s.address_length() {
        len
    } else {
        s.address_length() as int
    }
}

/// The RX address of pipe 0 that the driver caches, or zeros.
pub open spec fn cached_pipe0(s: Rf24View) -> Seq<u8> {
    match s.pipe0_rx_addr {
        Some(a) => a,
        None => seq![0u8; 5],
    }
}

/// How [`Rf24::open_rx_pipe`] runs: nothing for a pipe over 5. Else, for
/// pipe 0 or 1, it writes the address (cut to the cached address length);
/// for pipe 0 it also caches the address, and it writes nothing while the
/// radio is in TX mode ([`Rf24::as_rx`] writes the cached address). For
/// pipes 2 to 5 it writes the address's first byte. Then it reads EN_RXADDR
/// and writes it back with the pipe's bit set.
pub open spec fn open_rx_pipe_run(s: Rf24View, h: History, c: int, pipe: u8, address: Seq<u8>) -> Run {
    if pipe > 5 {
        done(s, c)
    } else {
        let width = open_width(s, address.len() as int);
        let s0 = if pipe == 0 {
            Rf24View { pipe0_rx_addr: Some(overwrite(cached_pipe0(s), address, width)), ..s }
        } else {
            s
        };
        let first = if pipe < 2 {
            if s.config_reg & 1 != 0 || pipe != 0 {
                xfer_run(
                    s0,
                    h,
                    c,
                    seq![((RX_ADDR_P0 + pipe) as u8) | W_REGISTER] + address.take(width),
                )
            } else {
                done(s0, c)
            }
        } else {
            write_run(s0, h, c, (RX_ADDR_P0 + pipe) as u8, address[0])
        };
        first.and_then(|s1: Rf24View, c1: int| read_run(s1, h, c1, EN_RXADDR, 1)).and_then(
            |s2: Rf24View, c2: int| write_run(s2, h, c2, EN_RXADDR, s2.io.buf[1] | (1u8 << pipe)),
        )
    }
}

/// How [`Rf24::close_rx_pipe`] runs: nothing for a pipe over 5; else it
/// reads EN_RXADDR and writes it back with the pipe's bit cleared, and for
/// pipe 0 forgets the cached address.
pub open spec fn close_rx_pipe_run(s: Rf24View, h: History, c: int, pipe: u8) -> Run {
    if pipe > 5 {
        done(s, c)
    } else {
        read_run(s, h, c, EN_RXADDR, 1).and_then(
            |s1: Rf24View, c1: int|
                write_run(s1, h, c1, EN_RXADDR, s1.io.buf[1] & !(1u8 << pipe)),
        ).map(
            |s2: Rf24View|
                if pipe == 0 {
                    Rf24View { pipe0_rx_addr: None, ..s2 }
                } else {
                    s2
                },
        )
    }
}

/// The cached FEATURE byte `feature` holding the address length `width`.
pub open spec fn with_address_length(feature: u8, width: u8) -> u8 {
    (feature & 0x1F) | (width << 5u8)
}

/// How [`Rf24::set_address_length`] runs: the length, clamped to [2, 5], is
/// written to SETUP_AW (less 2) and cached.
pub open spec fn set_address_length_run(s: Rf24View, h: History, c: int, length: u8) -> Run {
    let width = clamp(length, 2, 5);
    write_run(s, h, c, SETUP_AW, (width - 2) as u8).map(
        |s1: Rf24View| Rf24View { feature: with_address_length(s1.feature, width), ..s1 },
    )
}

/// How [`Rf24::get_address_length`] runs: it reads SETUP_AW; a value over 5
/// is corrupt, else the value plus 2 is cached as the address length.
pub open spec fn get_address_length_run(s: Rf24View, h: History, c: int) -> Run {
    read_run(s, h, c, SETUP_AW, 1).and_then(
        |s1: Rf24View, c1: int|
            if s1.io.buf[1] > 5 {
                corrupt(s1, c1)
            } else {
                done(
                    Rf24View {
                        feature: with_address_length(s1.feature, (s1.io.buf[1] + 2) as u8),
                        ..s1
                    },
                    c1,
                )
            },
    )
}

impl EsbPipe for Rf24 {
    /// Pipe 0's address (cut to the address length) fits its 5 bytes, and
    /// pipes 2 to 5 get a first byte.
    open spec fn pipe_address_fits(&self, pipe: u8, len: int) -> bool {
        &&& pipe == 0 ==> open_width(self@, len) <= 5
        &&& 2 <= pipe <= 5 ==> len >= 1
    }

    /// Open RX pipe `pipe` (0 to 5) with `address` (see
    /// [`open_rx_pipe_run`]). Pipes 2 to 5 share all but the first byte of
    /// their address with pipe 1.
    fn open_rx_pipe(&mut self, t: &mut Transcript, pipe: u8, address: &[u8]) -> (r: Result<
        (),
        Stop,
    >)
        ensures
            advanced(r, old(t)@, final(t)@),
            no_fail(r),
            ran(
                r,
                final(t)@,
                final(self)@,
                open_rx_pipe_run(old(self)@, old(t)@.history, old(t)@.cursor, pipe, address@),
            ),
    {
        if pipe > 5 {
            return Ok(());
        }
        if pipe < 2 {
            let al = self.feature.address_length() as usize;
            let width = if address.len() < al {
                address.len()
            } else {
                al
            };
            if pipe == 0 {
                let mut cached = match self.pipe0_rx_addr {
                    Some(a) => a,
                    None => [0u8; 5],
                };
                proof {
                    assert(self.pipe0_rx_addr is None ==> cached@ =~= seq![0u8; 5]);
                }
                copy_prefix5(&mut cached, address, width);
                self.pipe0_rx_addr = Some(cached);
            }
            if self.config_reg.is_rx() || pipe != 0 {
                self.spi_write_buf(t, RX_ADDR_P0 + pipe, address, width)?;
            }
        } else {
            self.spi_write_byte(t, RX_ADDR_P0 + pipe, address[0])?;
        }
        self.spi_read(t, 1, EN_RXADDR)?;
        let out = self.buf[1] | (1u8 << pipe);
        self.spi_write_byte(t, EN_RXADDR, out)
    }

    /// Close RX pipe `pipe` (see [`close_rx_pipe_run`]).
    fn close_rx_pipe(&mut self, t: &mut Transcript, pipe: u8) -> (r: Result<(), Stop>)
        ensures
            advanced(r, old(t)@, final(t)@),
            no_fail(r),
            ran(
                r,
                final(t)@,
                final(self)@,
                close_rx_pipe_run(old(self)@, old(t)@.history, old(t)@.cursor, pipe),
            ),
    {
        if pipe > 5 {
            return Ok(());
        }
        self.spi_read(t, 1, EN_RXADDR)?;
        let out = self.buf[1] & !(1u8 << pipe);
        self.spi_write_byte(t, EN_RXADDR, out)?;
        if pipe == 0 {
            self.pipe0_rx_addr = None;
        }
        Ok(())
    }

    /// Set the address length (in bytes) of all pipes (see
    /// [`set_address_length_run`]).
    fn set_address_length(&mut self, t: &mut Transcript, length: u8) -> (r: Result<(), Stop>)
        ensures
            advanced(r, old(t)@, final(t)@),
            no_fail(r),
            ran(
                r,
                final(t)@,
                final(self)@,
                set_address_length_run(old(self)@, old(t)@.history, old(t)@.cursor, length),
            ),
    {
        let width = clamp_u8(length, 2, 5);
        self.spi_write_byte(t, SETUP_AW, width - 2)?;
        self.feature = self.feature.with_address_length(width);
        Ok(())
    }

    /// Read the address length from SETUP_AW (its value plus 2) and cache
    /// it. A value that leaves no room for the cached length (over 5) fails
    /// with [`Nrf24Error::BinaryCorruption`].
    fn get_address_length(&mut self, t: &mut Transcript) -> (r: Result<u8, Stop>)
        ensures
            advanced(r, old(t)@, final(t)@),
            no_fail(r) || failed(r, Nrf24Error::BinaryCorruption),
            ran(r, final(t)@, final(self)@, get_address_length_run(old(self)@, old(t)@.history, old(t)@.cursor)),
            r is Ok ==> r->Ok_0 == reply(old(t)@.history, old(t)@.cursor)[1] + 2,
    {
        proof {
            reveal_with_fuel(replayed, 2);
        }
        self.spi_read(t, 1, SETUP_AW)?;
        let b = if self.buf[1] < 0xFD {
            self.buf[1]
        } else {
            0xFD
        };
        let length = b + 2;
        if length > 7 {
            return Err(Stop::Fail(Nrf24Error::BinaryCorruption));
        }
        self.feature = self.feature.with_address_length(length);
        Ok(length)
    }
}

} // verus!
