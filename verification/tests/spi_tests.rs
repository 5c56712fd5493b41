//! Driver behaviour over the scripted mock peripheral.

use spi_driver::mock::MockSpi;
use spi_driver::model::{SpiConfig, FREQ_4MHZ};
use spi_driver::pins::{InputPin, OutputPin, Pins};
use spi_driver::spi::{Error, NbError, Spi};

fn pin_triple(sck: u8, mosi: u8, miso: u8) -> Pins {
    Pins { sck: OutputPin::new(sck), mosi: OutputPin::new(mosi), miso: InputPin::new(miso) }
}

#[test]
fn configuration_writes_expected_values() {
    let dev = MockSpi::new(vec![]);
    let spi = dev.constrain(pin_triple(11, 12, 13));
    let (dev, _pins) = spi.release();
    assert_eq!(dev.sel_sck(), 11);
    assert_eq!(dev.sel_mosi(), 12);
    assert_eq!(dev.sel_miso(), 13);
    assert!(dev.is_enabled());
    assert_eq!(
        dev.config(),
        SpiConfig { msb_first: true, sample_leading: true, idle_high: true }
    );
    assert_eq!(dev.frequency(), FREQ_4MHZ);
    assert_eq!(dev.frequency(), 4_000_000);
}

#[test]
fn configuration_touches_no_data_state() {
    let dev = MockSpi::new(vec![0x55]);
    let spi = Spi::new(dev, pin_triple(1, 2, 3));
    let (dev, _pins) = spi.release();
    assert!(!dev.is_ready());
    assert!(dev.is_quiescent());
    assert!(dev.sent_bytes().is_empty());
    assert_eq!(dev.remaining_script().as_slice(), &[0x55]);
}

#[test]
fn read_is_ready_gated() {
    let dev = MockSpi::new(vec![0xAB]);
    let mut spi = dev.constrain(pin_triple(1, 2, 3));
    // Ready flag is 0: would block, nothing else happens.
    assert_eq!(spi.read(), Err(NbError::WouldBlock));
    assert_eq!(spi.read(), Err(NbError::WouldBlock));
    spi.send(0x01).unwrap();
    // One poll of latency while the exchange completes behind it.
    assert_eq!(spi.read(), Err(NbError::WouldBlock));
    // Ready flag is 1: the exact byte in the receive register comes back.
    assert_eq!(spi.read(), Ok(0xAB));
    // The flag was cleared by the successful read.
    assert_eq!(spi.read(), Err(NbError::WouldBlock));
}

#[test]
fn send_always_succeeds_and_is_recorded() {
    let dev = MockSpi::new(vec![]);
    let mut spi = dev.constrain(pin_triple(1, 2, 3));
    assert_eq!(spi.send(0x42), Ok(()));
    assert_eq!(spi.send(0x43), Ok(()));
    let (dev, _pins) = spi.release();
    assert_eq!(dev.sent_bytes().as_slice(), &[0x42, 0x43]);
}

#[test]
fn echo_peer_round_trip() {
    let data: Vec<u8> = vec![0, 1, 127, 128, 255, 42];
    let dev = MockSpi::new(data.clone());
    let mut spi = dev.constrain(pin_triple(4, 5, 6));
    let mut buf = data.clone();
    spi.transfer(&mut buf).unwrap();
    assert_eq!(buf, data);
}

#[test]
fn mapped_peer_preserves_order() {
    let data: Vec<u8> = vec![3, 1, 4, 1, 5, 9, 2, 6];
    let script: Vec<u8> = data.iter().map(|b| !b).collect();
    let dev = MockSpi::new(script);
    let mut spi = dev.constrain(pin_triple(4, 5, 6));
    let mut buf = data.clone();
    spi.transfer(&mut buf).unwrap();
    for (i, b) in buf.iter().enumerate() {
        assert_eq!(*b, !data[i]);
    }
    let (dev, _pins) = spi.release();
    // Sends happened in index order, nothing reordered or dropped.
    assert_eq!(dev.sent_bytes().as_slice(), data.as_slice());
    assert!(dev.remaining_script().is_empty());
    assert!(dev.is_quiescent());
}

#[test]
fn empty_transfer_is_a_no_op() {
    let dev = MockSpi::new(vec![5, 6]);
    let mut spi = dev.constrain(pin_triple(7, 8, 9));
    let mut buf: Vec<u8> = vec![];
    spi.transfer(&mut buf).unwrap();
    assert!(buf.is_empty());
    let (dev, _pins) = spi.release();
    assert!(dev.sent_bytes().is_empty());
    assert_eq!(dev.remaining_script().as_slice(), &[5, 6]);
    assert!(!dev.is_ready());
    assert!(dev.is_quiescent());
}

#[test]
fn transfer_leaves_unused_script() {
    let dev = MockSpi::new(vec![10, 20, 30, 40]);
    let mut spi = dev.constrain(pin_triple(1, 2, 3));
    let mut buf: Vec<u8> = vec![7, 8];
    spi.transfer(&mut buf).unwrap();
    assert_eq!(buf, vec![10, 20]);
    let (dev, _pins) = spi.release();
    assert_eq!(dev.remaining_script().as_slice(), &[30, 40]);
}

#[test]
fn long_transfer_exchanges_every_byte() {
    let data: Vec<u8> = (0..300usize).map(|i| (i % 256) as u8).collect();
    let script: Vec<u8> = data.iter().map(|b| b.wrapping_add(1)).collect();
    let dev = MockSpi::new(script.clone());
    let mut spi = dev.constrain(pin_triple(1, 2, 3));
    let mut buf = data.clone();
    spi.transfer(&mut buf).unwrap();
    assert_eq!(buf, script);
    let (dev, _pins) = spi.release();
    assert_eq!(dev.sent_bytes().as_slice(), data.as_slice());
    assert!(dev.remaining_script().is_empty());
}

#[test]
fn teardown_returns_pins() {
    let dev = MockSpi::new(vec![]);
    let spi = dev.constrain(pin_triple(21, 22, 23));
    let pins = spi.teardown();
    assert_eq!(pins.sck.get_id(), 21);
    assert_eq!(pins.mosi.get_id(), 22);
    assert_eq!(pins.miso.get_id(), 23);
}

#[test]
fn release_round_trips_resources() {
    let dev = MockSpi::new(vec![]);
    let spi = Spi::new(dev, pin_triple(1, 2, 3));
    let (dev, pins) = spi.release();
    assert_eq!(pins.sck.get_id(), 1);
    assert_eq!(pins.mosi.get_id(), 2);
    assert_eq!(pins.miso.get_id(), 3);
    // No side effects from release itself: still configured and enabled.
    assert!(dev.is_enabled());
    assert_eq!(dev.sel_sck(), 1);
    // The resources can be reused for a fresh driver.
    let spi = Spi::new(dev, pins);
    let pins = spi.teardown();
    assert_eq!(pins.sck.get_id(), 1);
}

#[test]
fn shutdown_disables_the_peripheral() {
    let dev = MockSpi::new(vec![]);
    let spi = dev.constrain(pin_triple(1, 2, 3));
    let (dev, pins) = spi.shutdown();
    assert!(!dev.is_enabled());
    assert_eq!(pins.miso.get_id(), 3);
    // Pin selection and mode survive; only the enable register was written.
    assert_eq!(dev.sel_sck(), 1);
    assert_eq!(
        dev.config(),
        SpiConfig { msb_first: true, sample_leading: true, idle_high: true }
    );
}

#[test]
fn scenario_send_then_read_with_latency() {
    let dev = MockSpi::new(vec![0x99]);
    // The mock starts with the ready flag clear.
    assert!(!dev.is_ready());
    let mut spi = dev.constrain(pin_triple(1, 2, 3));
    // Sending succeeds immediately; the answer is not ready yet.
    assert_eq!(spi.send(0x42), Ok(()));
    assert_eq!(spi.read(), Err(NbError::WouldBlock));
    // The latency has passed: ready is 1 and the receive register holds 0x99.
    assert_eq!(spi.read(), Ok(0x99));
    // The successful read cleared the ready flag.
    assert_eq!(spi.read(), Err(NbError::WouldBlock));
    let (dev, _pins) = spi.release();
    assert_eq!(dev.sent_bytes().as_slice(), &[0x42]);
}

#[test]
fn manual_busy_poll_matches_blocking_transfer() {
    let dev = MockSpi::new(vec![10, 20]);
    let mut spi = dev.constrain(pin_triple(1, 2, 3));
    let mut out: Vec<u8> = Vec::new();
    for &b in &[1u8, 2u8] {
        while spi.send(b).is_err() {}
        let byte = loop {
            match spi.read() {
                Ok(x) => break x,
                Err(NbError::WouldBlock) => continue,
                Err(NbError::Other(_)) => panic!("the primitives raise no transfer error"),
            }
        };
        out.push(byte);
    }
    assert_eq!(out, vec![10, 20]);
}

#[test]
fn reinitialise_after_shutdown() {
    let dev = MockSpi::new(vec![0x77, 0x78]);
    let mut spi = Spi::new(dev, pin_triple(1, 2, 3));
    assert_eq!(spi.send(0x01), Ok(()));
    assert_eq!(spi.read(), Err(NbError::WouldBlock));
    assert_eq!(spi.read(), Ok(0x77));
    let (dev, pins) = spi.shutdown();
    assert!(!dev.is_enabled());
    assert_eq!(dev.remaining_script().as_slice(), &[0x78]);
    assert!(dev.is_quiescent());
    // The same resources configure a fresh driver and the exchange goes on.
    let mut spi = Spi::new(dev, pins);
    assert_eq!(spi.send(0x02), Ok(()));
    assert_eq!(spi.read(), Err(NbError::WouldBlock));
    assert_eq!(spi.read(), Ok(0x78));
    let (dev, _pins) = spi.release();
    assert_eq!(dev.sent_bytes().as_slice(), &[0x01, 0x02]);
}

#[test]
fn error_variants_are_distinct() {
    assert_ne!(Error::OVERRUN, Error::NACK);
    let e = NbError::Other(Error::NACK);
    assert_ne!(e, NbError::WouldBlock);
    match e {
        NbError::Other(Error::NACK) => {}
        _ => panic!("wrong variant"),
    }
    let o = NbError::Other(Error::OVERRUN);
    match o {
        NbError::Other(Error::OVERRUN) => {}
        _ => panic!("wrong variant"),
    }
}
