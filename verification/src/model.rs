//! Mathematical model of the SPI peripheral's register block.
//!
//! The peripheral is a small state machine: three pin-select registers, an
//! enable register, a mode/config register, a frequency register, a one-bit
//! "ready" event flag and the receive/transmit data registers.  On top of the
//! raw registers the model keeps the exchange with the peer: the bytes the
//! peer will answer with (`script`), the byte currently being shifted in
//! (`pending`), the bytes written to the transmit register so far (`sent`),
//! and a trace of every register access (`log`).

use vstd::prelude::*;

verus! {

/// The fixed rate the frequency register is programmed to, in hertz.
pub const FREQ_4MHZ: u32 = 4000000;

/// Contents of the mode/config register: bit order, clock phase and clock
/// polarity.  The driver fixes all three at configuration time and never
/// changes them afterwards.
#[derive(Clone, Copy, PartialEq, Eq, Structural, Debug)]
pub struct SpiConfig {
    /// Most-significant bit is transmitted first.
    pub msb_first: bool,
    /// Data is sampled on the leading clock edge.
    pub sample_leading: bool,
    /// The clock idles high.
    pub idle_high: bool,
}

/// The one configuration the driver ever writes: MSB-first, leading-edge
/// sampling, idle-high clock.
pub open spec fn fixed_config() -> SpiConfig {
    SpiConfig { msb_first: true, sample_leading: true, idle_high: true }
}

/// One register access, as recorded in the model's trace.
pub enum RegOp {
    /// Write of a pin identifier to the clock pin-select register.
    WriteSelSck(u32),
    /// Write of a pin identifier to the data-out pin-select register.
    WriteSelMosi(u32),
    /// Write of a pin identifier to the data-in pin-select register.
    WriteSelMiso(u32),
    /// Write to the enable register.
    WriteEnable(bool),
    /// Write to the mode/config register.
    WriteConfig(SpiConfig),
    /// Write to the frequency register.
    WriteFrequency(u32),
    /// Write of a byte to the transmit-data register.
    WriteTxd(u8),
    /// Write that clears the ready event flag.
    WriteReadyClear,
    /// Read of the ready event flag, with the value observed.
    ReadReady(bool),
    /// Read of the receive-data register, with the byte observed.
    ReadRxd(u8),
}

/// Full model state of one peripheral instance.
#[verifier::ext_equal]
pub struct SpiState {
    /// Clock pin-select register.
    pub sel_sck: u32,
    /// Data-out pin-select register.
    pub sel_mosi: u32,
    /// Data-in pin-select register.
    pub sel_miso: u32,
    /// Enable register.
    pub enabled: bool,
    /// Mode/config register.
    pub config: SpiConfig,
    /// Frequency register, in hertz.
    pub frequency: u32,
    /// Ready event flag: one byte has been shifted out and one shifted in.
    pub ready: bool,
    /// Receive-data register: the last byte shifted in.
    pub rxd: u8,
    /// A byte the peer has answered with but that has not yet been latched
    /// into `rxd`; it is latched the next time the ready flag is polled.
    pub pending: Option<u8>,
    /// The bytes the peer will answer with, in order, one per transmitted
    /// byte.
    pub script: Seq<u8>,
    /// Every byte written to the transmit-data register, in order.
    pub sent: Seq<u8>,
    /// Every register access performed so far, in order.
    pub log: Seq<RegOp>,
}

/// No exchange is in flight: the ready flag is clear and no byte is pending.
pub open spec fn quiescent(s: SpiState) -> bool {
    &&& !s.ready
    &&& s.pending is None
}

/// Effect of writing the clock pin-select register.
pub open spec fn sel_sck_step(s: SpiState, v: u32) -> SpiState {
    SpiState { sel_sck: v, log: s.log.push(RegOp::WriteSelSck(v)), ..s }
}

/// Effect of writing the data-out pin-select register.
pub open spec fn sel_mosi_step(s: SpiState, v: u32) -> SpiState {
    SpiState { sel_mosi: v, log: s.log.push(RegOp::WriteSelMosi(v)), ..s }
}

/// Effect of writing the data-in pin-select register.
pub open spec fn sel_miso_step(s: SpiState, v: u32) -> SpiState {
    SpiState { sel_miso: v, log: s.log.push(RegOp::WriteSelMiso(v)), ..s }
}

/// Effect of writing the enable register.
pub open spec fn enable_step(s: SpiState, on: bool) -> SpiState {
    SpiState { enabled: on, log: s.log.push(RegOp::WriteEnable(on)), ..s }
}

/// Effect of writing the mode/config register.
pub open spec fn config_step(s: SpiState, c: SpiConfig) -> SpiState {
    SpiState { config: c, log: s.log.push(RegOp::WriteConfig(c)), ..s }
}

/// Effect of writing the frequency register.
pub open spec fn frequency_step(s: SpiState, hz: u32) -> SpiState {
    SpiState { frequency: hz, log: s.log.push(RegOp::WriteFrequency(hz)), ..s }
}

/// Effect of writing a byte to the transmit-data register.  If the peripheral
/// is enabled and the peer has an answer left in its script, that answer
/// starts shifting in and becomes the pending byte; otherwise nothing is
/// exchanged on the wire.
pub open spec fn send_step(s: SpiState, b: u8) -> SpiState {
    let logged = SpiState { sent: s.sent.push(b), log: s.log.push(RegOp::WriteTxd(b)), ..s };
    if s.enabled && s.script.len() > 0 {
        SpiState { pending: Some(s.script[0]), script: s.script.skip(1), ..logged }
    } else {
        logged
    }
}

/// Effect of reading the ready event flag.  The value observed is the flag
/// before the read.  If the flag was clear and a byte was in flight, the
/// exchange completes behind the poll: the byte is latched into the
/// receive-data register and the flag is set, to be observed by the next
/// poll.
pub open spec fn ready_read_step(s: SpiState) -> SpiState {
    if s.ready {
        SpiState { log: s.log.push(RegOp::ReadReady(true)), ..s }
    } else {
        match s.pending {
            Some(b) => SpiState {
                ready: true,
                rxd: b,
                pending: None,
                log: s.log.push(RegOp::ReadReady(false)),
                ..s
            },
            None => SpiState { log: s.log.push(RegOp::ReadReady(false)), ..s },
        }
    }
}

/// Effect of reading the receive-data register.
pub open spec fn rxd_read_step(s: SpiState) -> SpiState {
    SpiState { log: s.log.push(RegOp::ReadRxd(s.rxd)), ..s }
}

/// Effect of clearing the ready event flag.
pub open spec fn ready_clear_step(s: SpiState) -> SpiState {
    SpiState { ready: false, log: s.log.push(RegOp::WriteReadyClear), ..s }
}

/// State after one non-blocking read attempt by the driver: the ready flag is
/// polled; if it was set, the received byte is read and the flag is cleared.
pub open spec fn try_read_step(s: SpiState) -> SpiState {
    if s.ready {
        ready_clear_step(rxd_read_step(ready_read_step(s)))
    } else {
        ready_read_step(s)
    }
}

/// The six register writes configuration performs, in order.
pub open spec fn init_writes(sck: u32, mosi: u32, miso: u32) -> Seq<RegOp> {
    seq![
        RegOp::WriteSelSck(sck),
        RegOp::WriteSelMosi(mosi),
        RegOp::WriteSelMiso(miso),
        RegOp::WriteEnable(true),
        RegOp::WriteConfig(fixed_config()),
        RegOp::WriteFrequency(FREQ_4MHZ),
    ]
}

/// State after configuration: the three pin identifiers are selected, the
/// peripheral is enabled, the mode and frequency are fixed, and exactly the
/// six writes of [`init_writes`] have been appended to the trace.  Nothing
/// else changes.
pub open spec fn configured(s: SpiState, sck: u32, mosi: u32, miso: u32) -> SpiState {
    SpiState {
        sel_sck: sck,
        sel_mosi: mosi,
        sel_miso: miso,
        enabled: true,
        config: fixed_config(),
        frequency: FREQ_4MHZ,
        log: s.log + init_writes(sck, mosi, miso),
        ..s
    }
}

/// State of a fresh mock peripheral: registers at their reset values, no
/// exchange in flight, an untouched trace, and the peer's answers loaded.
pub open spec fn initial_state(script: Seq<u8>) -> SpiState {
    SpiState {
        sel_sck: 0,
        sel_mosi: 0,
        sel_miso: 0,
        enabled: false,
        config: SpiConfig { msb_first: false, sample_leading: false, idle_high: false },
        frequency: 0,
        ready: false,
        rxd: 0,
        pending: None,
        script,
        sent: Seq::empty(),
        log: Seq::empty(),
    }
}

/// One full-duplex byte exchange as the blocking transfer performs it: the
/// byte is written to the transmit register, the first poll of the ready flag
/// returns "not ready" while the exchange completes, and the second attempt
/// finds the flag set, reads the answer and clears the flag.
pub open spec fn exchange_step(s: SpiState, b: u8) -> SpiState {
    try_read_step(ready_read_step(send_step(s, b)))
}

/// The byte the exchange of [`exchange_step`] hands back.
pub open spec fn exchange_out(s: SpiState, b: u8) -> u8 {
    ready_read_step(send_step(s, b)).rxd
}

/// Outcome of a blocking transfer: the peripheral state it leaves behind and
/// the bytes it stores back into the caller's buffer.
#[verifier::ext_equal]
pub struct XferResult {
    /// Peripheral state after the transfer.
    pub state: SpiState,
    /// The bytes received, one per transmitted byte, in order.
    pub out: Seq<u8>,
}

/// The blocking transfer, byte by byte: each input byte is exchanged with the
/// peer in index order and the answer takes its place.
pub open spec fn transfer_spec(s: SpiState, input: Seq<u8>) -> XferResult
    decreases input.len(),
{
    if input.len() == 0 {
        XferResult { state: s, out: Seq::empty() }
    } else {
        let first = exchange_out(s, input[0]);
        let rest = transfer_spec(exchange_step(s, input[0]), input.skip(1));
        XferResult { state: rest.state, out: seq![first] + rest.out }
    }
}

} // verus!
