//! Development devices for a byte-exchange device.
pub mod intercept;
pub mod mock;
