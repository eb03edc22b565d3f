//! Development devices: mocks that stand in for hardware, and intercepts that
//! report what passes through a device.
//!
//! A mock comes as two handles on one simulated device. The device handle goes
//! where the hardware would go; the control handle stays with the test, which
//! uses it to arm errors, set delays and read the device while the other
//! handle is in use elsewhere.
//!
//! Nothing here blocks or prints by itself. A mock asks a [`env::Delay`] to
//! wait, and an intercept hands its lines to a [`env::Sink`].
pub mod builder;
pub mod env;
pub mod output;
pub mod shared;
pub mod spi;
pub mod text;

pub use crate::dev::builder::Intercept;
pub use crate::dev::builder::Mock;
pub use crate::dev::output::mock::PinError;
pub use crate::dev::spi::mock::SpiError;
