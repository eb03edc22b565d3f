//! Development devices for a digital output line.
pub mod intercept;
pub mod mock;
