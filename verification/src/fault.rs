use vstd::prelude::*;

verus! {

/// The single error kind of the library: a simulated hardware failure.
///
/// Every failing operation reports which bus it was on and, where the bus is
/// addressed, which pin or address was configured to fail.
#[derive(Debug, Clone, Copy, PartialEq, Eq, Structural)]
pub enum HardwareFault {
    /// A GPIO operation was attempted on a pin in the failure set.
    GpioPin { pin: u8 },
    /// An I2C operation was attempted on an address in the failure set.
    I2cAddress { address: u8 },
    /// An SPI transfer was attempted while the channel failure flag was set.
    SpiBus,
}

} // verus!
