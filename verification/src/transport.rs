//! Transports: an SPI device, with or without a chip-select line of its own,
//! behind one transfer operation and one error type.
pub mod auto;
pub mod builder;
pub mod cs;
pub mod error;
pub mod traits;
