//! Byte-oriented SPI master driver.
//!
//! The driver programs a peripheral's pin-select, mode and clock registers
//! once, then exchanges bytes through non-blocking send/read primitives and a
//! blocking transfer built on top of them.  All register traffic goes through
//! the [`spi::SpiExt`] interface, whose contracts are stated over the
//! mathematical register model in [`model`]; [`mock::MockSpi`] is an in-memory
//! peripheral implementing that interface, usable as a scripted test double.

pub mod laws;
pub mod mock;
pub mod model;
pub mod pins;
pub mod spi;
