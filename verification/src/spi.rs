//! The SPI driver: one-time configuration, non-blocking byte primitives, and
//! the blocking buffer transfer composed from them.

use vstd::prelude::*;

use crate::model::{
    config_step, configured, enable_step, exchange_out, exchange_step,
    frequency_step, quiescent, ready_clear_step, ready_read_step, rxd_read_step, sel_miso_step,
    sel_mosi_step, sel_sck_step, send_step, transfer_spec, try_read_step, SpiConfig, SpiState,
    FREQ_4MHZ,
};
use crate::pins::Pins;

verus! {

/// Transfer errors.  Both kinds are reserved: no operation of this driver
/// currently raises either, but the type keeps the shape shared with sibling
/// bus drivers.
#[derive(Clone, Copy, PartialEq, Eq, Structural, Debug)]
pub enum Error {
    /// The receiver still held unread data when new data arrived.
    OVERRUN,
    /// The peer did not acknowledge.
    NACK,
}

/// Outcome of a non-blocking primitive that did not hand back a byte: either
/// a real transfer fault, or `WouldBlock`, the normal "retry later" signal
/// while the hardware is not ready.  The same shape as the `nb` crate's
/// error, stated as a type of this library so that contracts can speak of
/// it; bindings to `nb`-based interfaces convert one into the other.
#[derive(Clone, Copy, PartialEq, Eq, Structural, Debug)]
pub enum NbError {
    /// A real transfer fault.
    Other(Error),
    /// The operation cannot complete yet and should be retried; not a fault.
    WouldBlock,
}

/// Register-level access to one SPI peripheral instance.
///
/// Each method stands for one access to one register, and its contract is the
/// matching transition of the register model in [`crate::model`].  The driver
/// is written, and verified, against these contracts alone.
/// [`crate::mock::MockSpi`] implements them in memory; an implementation over
/// a real register block must perform the same accesses.
pub trait SpiExt: Sized {
    /// The peripheral's current model state.  Verified implementations
    /// override this; for one outside the verifier (a hardware binding) the
    /// default stands, an unconstrained state.
    open spec fn model(&self) -> SpiState {
        arbitrary()
    }

    /// Writes a pin identifier into the clock pin-select register.
    fn write_sel_sck(&mut self, v: u32)
        ensures
            final(self).model() == sel_sck_step(old(self).model(), v),
    ;

    /// Writes a pin identifier into the data-out pin-select register.
    fn write_sel_mosi(&mut self, v: u32)
        ensures
            final(self).model() == sel_mosi_step(old(self).model(), v),
    ;

    /// Writes a pin identifier into the data-in pin-select register.
    fn write_sel_miso(&mut self, v: u32)
        ensures
            final(self).model() == sel_miso_step(old(self).model(), v),
    ;

    /// Writes the enable register.
    fn write_enable(&mut self, on: bool)
        ensures
            final(self).model() == enable_step(old(self).model(), on),
    ;

    /// Writes the mode/config register.
    fn write_config(&mut self, c: SpiConfig)
        ensures
            final(self).model() == config_step(old(self).model(), c),
    ;

    /// Writes the frequency register.
    fn write_frequency(&mut self, hz: u32)
        ensures
            final(self).model() == frequency_step(old(self).model(), hz),
    ;

    /// Writes one byte into the transmit-data register.
    fn write_txd(&mut self, b: u8)
        ensures
            final(self).model() == send_step(old(self).model(), b),
    ;

    /// Reads the ready event flag, returning the value observed.
    fn check_ready(&mut self) -> (r: bool)
        ensures
            r == old(self).model().ready,
            final(self).model() == ready_read_step(old(self).model()),
    ;

    /// Reads the receive-data register.
    fn read_rxd(&mut self) -> (r: u8)
        ensures
            r == old(self).model().rxd,
            final(self).model() == rxd_read_step(old(self).model()),
    ;

    /// Clears the ready event flag, arming it for the next byte.
    fn clear_ready(&mut self)
        ensures
            final(self).model() == ready_clear_step(old(self).model()),
    ;

}

/// An SPI master driver.  It exclusively owns one peripheral instance and the
/// three pins wired to it for its whole lifetime; both are handed back by the
/// teardown operations.
pub struct Spi<S: SpiExt> {
    spi: S,
    pins: Pins,
}

impl<S: SpiExt> Spi<S> {
    /// The model state of the owned peripheral.
    pub closed spec fn model(&self) -> SpiState {
        self.spi.model()
    }

    /// The pin triple the driver owns.
    pub closed spec fn pins_model(&self) -> Pins {
        self.pins
    }

    /// Configures the peripheral and builds the driver over it.
    ///
    /// Exactly six registers are written, in this order: the three pin-select
    /// registers with the pins' identifiers, the enable register, the
    /// mode/config register (MSB-first, leading-edge sample, idle-high) and
    /// the frequency register (4 MHz).  The caller must not let any
    /// conflicting on-chip function drive the same register range, and must
    /// not build two drivers over one instance; pin and peripheral ownership
    /// make the latter a build-time error.
    pub fn new(spi: S, pins: Pins) -> (r: Self)
        ensures
            r.model() == configured(
                spi.model(),
                pins.sck.id() as u32,
                pins.mosi.id() as u32,
                pins.miso.id() as u32,
            ),
            r.pins_model() == pins,
    {
        let mut dev = spi;
        let sck = pins.sck.get_id();
        let mosi = pins.mosi.get_id();
        let miso = pins.miso.get_id();
        dev.write_sel_sck(sck as u32);
        dev.write_sel_mosi(mosi as u32);
        dev.write_sel_miso(miso as u32);
        dev.write_enable(true);
        dev.write_config(SpiConfig { msb_first: true, sample_leading: true, idle_high: true });
        dev.write_frequency(FREQ_4MHZ);
        let r = Spi { spi: dev, pins };
        proof {
            assert(r.model() =~= configured(
                spi.model(),
                pins.sck.id() as u32,
                pins.mosi.id() as u32,
                pins.miso.id() as u32,
            ));
        }
        r
    }

    /// Disowns the driver and returns the pin handles.
    ///
    /// The peripheral handle is dropped and the peripheral is left enabled
    /// with its last configuration still electrically active; use
    /// [`Spi::release`] or [`Spi::shutdown`] to get the handle back.
    pub fn teardown(self) -> (r: Pins)
        ensures
            r == self.pins_model(),
    {
        self.pins
    }

    /// Disowns the driver and returns the peripheral and the pin handles,
    /// touching no register: the peripheral stays enabled, exactly as the
    /// last operation left it.
    pub fn release(self) -> (r: (S, Pins))
        ensures
            r.0.model() == self.model(),
            r.1 == self.pins_model(),
    {
        (self.spi, self.pins)
    }

    /// Disowns the driver after disabling the peripheral: one write of the
    /// enable register, then the peripheral and pin handles are returned.
    pub fn shutdown(self) -> (r: (S, Pins))
        ensures
            r.0.model() == enable_step(self.model(), false),
            r.1 == self.pins_model(),
    {
        let mut s = self;
        s.spi.write_enable(false);
        (s.spi, s.pins)
    }

    /// Non-blocking read of one byte.
    ///
    /// Polls the ready flag once.  If it is clear the call returns
    /// `WouldBlock`, a normal "retry later" outcome, and touches no other
    /// register.  If it is set, the received byte is read out and the flag is
    /// cleared, arming it for the next byte; clearing is what lets a later
    /// byte be detected at all.
    pub fn read(&mut self) -> (r: Result<u8, NbError>)
        ensures
            final(self).model() == try_read_step(old(self).model()),
            final(self).pins_model() == old(self).pins_model(),
            old(self).model().ready ==> r == Ok::<u8, NbError>(
                old(self).model().rxd,
            ),
            !old(self).model().ready ==> r == Err::<u8, NbError>(
                NbError::WouldBlock,
            ),
    {
        if self.spi.check_ready() {
            let byte = self.spi.read_rxd();
            self.spi.clear_ready();
            Ok(byte)
        } else {
            Err(NbError::WouldBlock)
        }
    }

    /// Non-blocking send of one byte: the byte is written to the
    /// transmit-data register unconditionally and the call always succeeds.
    /// The caller must alternate sends and reads byte by byte, as
    /// [`Spi::transfer`] does, so that each ready pulse is consumed before
    /// the next byte is issued.
    pub fn send(&mut self, byte: u8) -> (r: Result<(), NbError>)
        ensures
            r is Ok,
            final(self).model() == send_step(old(self).model(), byte),
            final(self).pins_model() == old(self).pins_model(),
    {
        self.spi.write_txd(byte);
        Ok(())
    }

    /// Busy-polls the ready flag until a byte is available, then reads it.
    fn read_blocking(&mut self) -> (r: u8)
        requires
            !old(self).model().ready,
            old(self).model().pending is Some,
        ensures
            old(self).model().pending == Some(r),
            final(self).model() == try_read_step(ready_read_step(old(self).model())),
            final(self).pins_model() == old(self).pins_model(),
    {
        let ghost m0 = self.model();
        let ghost p0 = self.pins_model();
        let mut out: u8 = 0;
        let mut have: bool = false;
        while !have
            invariant
                !m0.ready,
                m0.pending is Some,
                self.pins_model() == p0,
                !have ==> self.model() == m0 || self.model() == ready_read_step(m0),
                have ==> m0.pending == Some(out),
                have ==> self.model() == try_read_step(ready_read_step(m0)),
            decreases (if have {
                0int
            } else if self.model().ready {
                1int
            } else {
                2int
            }),
        {
            let ghost x = self.model();
            match self.read() {
                Ok(b) => {
                    proof {
                        assert(x.ready);
                        assert(x == ready_read_step(m0));
                    }
                    out = b;
                    have = true;
                },
                Err(_) => {},
            }
        }
        out
    }

    /// Blocking full-duplex transfer, in place.
    ///
    /// For each buffer position in index order, the byte there is sent and
    /// the position is overwritten with the byte the peer answered; an empty
    /// buffer is a no-op that touches no register.  Each per-byte wait is a
    /// busy poll of the ready flag that occupies the calling thread, so the
    /// peer must answer every byte: no exchange may be in flight on entry,
    /// the peripheral must be enabled (unless the buffer is empty), and the
    /// peer's script must cover the buffer.  The error type is surfaced for
    /// interface symmetry only; no path of this driver produces one.
    pub fn transfer(&mut self, words: &mut Vec<u8>) -> (r: Result<(), Error>)
        requires
            quiescent(old(self).model()),
            old(words)@.len() <= old(self).model().script.len(),
            old(words)@.len() > 0 ==> old(self).model().enabled,
        ensures
            r is Ok,
            final(self).model() == transfer_spec(old(self).model(), old(words)@).state,
            final(words)@ == transfer_spec(old(self).model(), old(words)@).out,
            final(words)@.len() == old(words)@.len(),
            final(self).pins_model() == old(self).pins_model(),
            old(words)@.len() == 0 ==> final(self).model() == old(self).model()
                && final(words)@ == old(words)@,
    {
        let ghost s0 = self.model();
        let ghost w0 = words@;
        let ghost p0 = self.pins_model();
        let n = words.len();
        proof {
            assert(w0.skip(0) =~= w0);
            assert(words@.take(0) =~= Seq::<u8>::empty());
            assert(words@.take(0) + transfer_spec(s0, w0).out =~= transfer_spec(s0, w0).out);
        }
        let mut i: usize = 0;
        while i < n
            invariant
                i <= n,
                n == words@.len(),
                w0.len() == n,
                w0.len() <= s0.script.len(),
                n > 0 ==> s0.enabled,
                self.pins_model() == p0,
                quiescent(self.model()),
                self.model().enabled == s0.enabled,
                self.model().script == s0.script.skip(i as int),
                words@.skip(i as int) == w0.skip(i as int),
                transfer_spec(s0, w0).state == transfer_spec(
                    self.model(),
                    w0.skip(i as int),
                ).state,
                transfer_spec(s0, w0).out == words@.take(i as int) + transfer_spec(
                    self.model(),
                    w0.skip(i as int),
                ).out,
                i == 0 ==> self.model() == s0 && words@ == w0,
            decreases n - i,
        {
            let ghost m = self.model();
            let ghost u = w0.skip(i as int);
            let ghost wtop = words@;
            let byte = words[i];
            proof {
                assert(u[0] == w0[i as int]);
                assert(wtop.skip(i as int)[0] == wtop[i as int]);
                assert(byte == u[0]);
                assert(u.len() == n - i);
            }
            let _ = self.send(byte);
            let got = self.read_blocking();
            words[i] = got;
            proof {
                assert(got == exchange_out(m, byte));
                assert(self.model() =~= exchange_step(m, byte));
                assert(u.skip(1) =~= w0.skip(i as int + 1));
                assert(self.model().script =~= s0.script.skip(i as int + 1));
                assert(words@ == wtop.update(i as int, got));
                assert(words@.skip(i as int + 1) =~= w0.skip(i as int + 1));
                assert(words@.take(i as int + 1) =~= wtop.take(i as int).push(got));
                // Unfold one exchange of the transfer denotation.
                assert(transfer_spec(m, u).state == transfer_spec(
                    self.model(),
                    w0.skip(i as int + 1),
                ).state);
                assert(transfer_spec(m, u).out =~= seq![got] + transfer_spec(
                    self.model(),
                    w0.skip(i as int + 1),
                ).out);
                assert(wtop.take(i as int) + (seq![got] + transfer_spec(
                    self.model(),
                    w0.skip(i as int + 1),
                ).out) =~= words@.take(i as int + 1) + transfer_spec(
                    self.model(),
                    w0.skip(i as int + 1),
                ).out);
            }
            i += 1;
        }
        proof {
            assert(w0.skip(n as int).len() == 0);
            assert(words@.take(n as int) =~= words@);
            assert(transfer_spec(s0, w0).out =~= words@);
        }
        Ok(())
    }
}

} // verus!
