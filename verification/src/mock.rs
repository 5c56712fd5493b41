//! An in-memory SPI peripheral: registers held as plain fields, the peer
//! scripted as a queue of answer bytes.
//!
//! `MockSpi` implements [`crate::spi::SpiExt`], so the driver runs over it
//! unchanged.  A test loads the peer's answers up front; each byte written to
//! the transmit register consumes one answer, which is latched into the
//! receive register at the next poll of the ready flag — one poll of latency,
//! as real hardware shows.  The mock also records every byte sent and, in
//! ghost state, every register access, which is what the driver's contracts
//! are stated over.

use vstd::prelude::*;

use crate::model::{
    config_step, configured, enable_step, frequency_step, initial_state, quiescent,
    ready_clear_step, ready_read_step, rxd_read_step, sel_miso_step, sel_mosi_step, sel_sck_step,
    send_step, SpiConfig, SpiState, RegOp,
};
use crate::pins::Pins;
use crate::spi::{Spi, SpiExt};

verus! {

/// A scripted, in-memory SPI peripheral instance.
pub struct MockSpi {
    sel_sck: u32,
    sel_mosi: u32,
    sel_miso: u32,
    enabled: bool,
    config: SpiConfig,
    frequency: u32,
    ready: bool,
    rxd: u8,
    pending: Option<u8>,
    script: Vec<u8>,
    sent: Vec<u8>,
    log: Ghost<Seq<RegOp>>,
}

impl MockSpi {
    /// Builds a fresh peripheral whose peer will answer with the bytes of
    /// `script`, in order, one per transmitted byte.
    pub fn new(script: Vec<u8>) -> (r: Self)
        ensures
            r.model() == initial_state(script@),
    {
        let r = MockSpi {
            sel_sck: 0,
            sel_mosi: 0,
            sel_miso: 0,
            enabled: false,
            config: SpiConfig { msb_first: false, sample_leading: false, idle_high: false },
            frequency: 0,
            ready: false,
            rxd: 0,
            pending: None,
            script,
            sent: Vec::new(),
            log: Ghost(Seq::empty()),
        };
        proof {
            assert(r.model() =~= initial_state(script@));
        }
        r
    }

    /// Consumes the instance and the pins and configures a driver over them;
    /// the same operation as [`Spi::new`].
    pub fn constrain(self, pins: Pins) -> (r: Spi<MockSpi>)
        ensures
            r.model() == configured(
                self.model(),
                pins.sck.id() as u32,
                pins.mosi.id() as u32,
                pins.miso.id() as u32,
            ),
            r.pins_model() == pins,
    {
        Spi::new(self, pins)
    }

    /// The clock pin-select register's contents.
    pub fn sel_sck(&self) -> (r: u32)
        ensures
            r == self.model().sel_sck,
    {
        self.sel_sck
    }

    /// The data-out pin-select register's contents.
    pub fn sel_mosi(&self) -> (r: u32)
        ensures
            r == self.model().sel_mosi,
    {
        self.sel_mosi
    }

    /// The data-in pin-select register's contents.
    pub fn sel_miso(&self) -> (r: u32)
        ensures
            r == self.model().sel_miso,
    {
        self.sel_miso
    }

    /// Whether the enable register holds the enabled state.
    pub fn is_enabled(&self) -> (r: bool)
        ensures
            r == self.model().enabled,
    {
        self.enabled
    }

    /// The mode/config register's contents.
    pub fn config(&self) -> (r: SpiConfig)
        ensures
            r == self.model().config,
    {
        self.config
    }

    /// The frequency register's contents, in hertz.
    pub fn frequency(&self) -> (r: u32)
        ensures
            r == self.model().frequency,
    {
        self.frequency
    }

    /// Whether the ready event flag is set.  A mock-level observation, not a
    /// register access: nothing is latched and nothing is recorded.
    pub fn is_ready(&self) -> (r: bool)
        ensures
            r == self.model().ready,
    {
        self.ready
    }

    /// Every byte written to the transmit-data register so far, in order.
    pub fn sent_bytes(&self) -> (r: &Vec<u8>)
        ensures
            r@ == self.model().sent,
    {
        &self.sent
    }

    /// The answers the peer has not yet given.
    pub fn remaining_script(&self) -> (r: &Vec<u8>)
        ensures
            r@ == self.model().script,
    {
        &self.script
    }

    /// Whether no exchange is in flight.
    pub fn is_quiescent(&self) -> (r: bool)
        ensures
            r == quiescent(self.model()),
    {
        self.pending.is_none() && !self.ready
    }
}

impl SpiExt for MockSpi {
    closed spec fn model(&self) -> SpiState {
        SpiState {
            sel_sck: self.sel_sck,
            sel_mosi: self.sel_mosi,
            sel_miso: self.sel_miso,
            enabled: self.enabled,
            config: self.config,
            frequency: self.frequency,
            ready: self.ready,
            rxd: self.rxd,
            pending: self.pending,
            script: self.script@,
            sent: self.sent@,
            log: self.log@,
        }
    }

    fn write_sel_sck(&mut self, v: u32) {
        self.sel_sck = v;
        self.log = Ghost(self.log@.push(RegOp::WriteSelSck(v)));
        proof {
            assert(self.model() =~= sel_sck_step(old(self).model(), v));
        }
    }

    fn write_sel_mosi(&mut self, v: u32) {
        self.sel_mosi = v;
        self.log = Ghost(self.log@.push(RegOp::WriteSelMosi(v)));
        proof {
            assert(self.model() =~= sel_mosi_step(old(self).model(), v));
        }
    }

    fn write_sel_miso(&mut self, v: u32) {
        self.sel_miso = v;
        self.log = Ghost(self.log@.push(RegOp::WriteSelMiso(v)));
        proof {
            assert(self.model() =~= sel_miso_step(old(self).model(), v));
        }
    }

    fn write_enable(&mut self, on: bool) {
        self.enabled = on;
        self.log = Ghost(self.log@.push(RegOp::WriteEnable(on)));
        proof {
            assert(self.model() =~= enable_step(old(self).model(), on));
        }
    }

    fn write_config(&mut self, c: SpiConfig) {
        self.config = c;
        self.log = Ghost(self.log@.push(RegOp::WriteConfig(c)));
        proof {
            assert(self.model() =~= config_step(old(self).model(), c));
        }
    }

    fn write_frequency(&mut self, hz: u32) {
        self.frequency = hz;
        self.log = Ghost(self.log@.push(RegOp::WriteFrequency(hz)));
        proof {
            assert(self.model() =~= frequency_step(old(self).model(), hz));
        }
    }

    fn write_txd(&mut self, b: u8) {
        self.sent.push(b);
        self.log = Ghost(self.log@.push(RegOp::WriteTxd(b)));
        if self.enabled && self.script.len() > 0 {
            let answer = self.script.remove(0);
            self.pending = Some(answer);
            proof {
                assert(self.script@ =~= old(self).model().script.skip(1));
            }
        }
        proof {
            assert(self.model() =~= send_step(old(self).model(), b));
        }
    }

    fn check_ready(&mut self) -> (r: bool) {
        let was_ready = self.ready;
        self.log = Ghost(self.log@.push(RegOp::ReadReady(was_ready)));
        if !was_ready {
            match self.pending {
                Some(b) => {
                    self.rxd = b;
                    self.ready = true;
                    self.pending = None;
                },
                None => {},
            }
        }
        proof {
            assert(self.model() =~= ready_read_step(old(self).model()));
        }
        was_ready
    }

    fn read_rxd(&mut self) -> (r: u8) {
        self.log = Ghost(self.log@.push(RegOp::ReadRxd(self.rxd)));
        proof {
            assert(self.model() =~= rxd_read_step(old(self).model()));
        }
        self.rxd
    }

    fn clear_ready(&mut self) {
        self.ready = false;
        self.log = Ghost(self.log@.push(RegOp::WriteReadyClear));
        proof {
            assert(self.model() =~= ready_clear_step(old(self).model()));
        }
    }
}

} // verus!
