//! Pin handles for the three SPI wires.
//!
//! A pin handle carries the numeric pin identifier that is written into the
//! peripheral's pin-select registers, tagged with the electrical mode the
//! multiplexer expects for its role: clock and data-out must be push-pull
//! outputs, data-in must be a floating input.  The two kinds are distinct,
//! non-interchangeable types, so wiring a pin into the wrong role is rejected
//! at build time.  Pin handles are move-only: they are consumed when a driver
//! is built and handed back when it is torn down, so a pin cannot serve two
//! drivers at once.

use vstd::prelude::*;

verus! {

/// A pin configured as a push-pull output, suitable for the clock and
/// data-out roles.
pub struct OutputPin {
    id: u8,
}

impl OutputPin {
    /// The numeric identifier written into a pin-select register.
    pub closed spec fn id(&self) -> u8 {
        self.id
    }

    /// Claims the pin with the given identifier as a push-pull output.
    pub fn new(id: u8) -> (r: Self)
        ensures
            r.id() == id,
    {
        OutputPin { id }
    }

    /// Returns the pin's numeric identifier.
    pub fn get_id(&self) -> (r: u8)
        ensures
            r == self.id(),
    {
        self.id
    }
}

/// A pin configured as a floating input, suitable for the data-in role.
pub struct InputPin {
    id: u8,
}

impl InputPin {
    /// The numeric identifier written into a pin-select register.
    pub closed spec fn id(&self) -> u8 {
        self.id
    }

    /// Claims the pin with the given identifier as a floating input.
    pub fn new(id: u8) -> (r: Self)
        ensures
            r.id() == id,
    {
        InputPin { id }
    }

    /// Returns the pin's numeric identifier.
    pub fn get_id(&self) -> (r: u8)
        ensures
            r == self.id(),
    {
        self.id
    }
}

/// The pin triple a driver owns: clock out, data out, data in.
pub struct Pins {
    /// Serial clock, driven by the master.
    pub sck: OutputPin,
    /// Master-out-slave-in data line.
    pub mosi: OutputPin,
    /// Master-in-slave-out data line.
    pub miso: InputPin,
}

} // verus!
