//! Predictable SPI transports with an explicit chip-select line, and the
//! development devices that go with them: mock peripherals that fail, answer
//! and pause on demand, and intercepts that report the traffic passing
//! through them.
//!
//! Devices are described by relations between their state before and after an
//! operation. Everything the transports, mocks, and intercepts of this crate
//! promise is stated in terms of those relations.
pub mod dev;
pub mod hal;
pub mod transport;

pub use crate::hal::OutputPin;
pub use crate::hal::Polarity;
pub use crate::hal::Transfer;
pub use crate::transport::builder::Transport;
pub use crate::transport::error::Error;
pub use crate::transport::traits::ChipSelect;
pub use crate::transport::traits::ClockSpeed;
pub use crate::transport::traits::SpiDev;
