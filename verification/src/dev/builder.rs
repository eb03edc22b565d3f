//! Where the making of a development device starts.
use crate::dev::spi::mock::ByteGenerator;
use vstd::prelude::*;

verus! {

/// Starts a mock device.
#[derive(Debug)]
pub struct Mock;

impl Mock {
    /// Starts a mock output line named `name`.
    pub fn pin(name: &str) -> (builder: crate::dev::output::mock::MockBuilder)
        ensures
            builder.name() == name@,
            builder.log(),
            builder.delay().is_none(),
    {
        crate::dev::output::mock::MockBuilder::new(name)
    }

    /// Starts a mock SPI device named `name` that can take generators of
    /// type `G`.
    pub fn spi<G: ByteGenerator>(name: &str) -> (builder: crate::dev::spi::mock::MockBuilder<G>)
        ensures
            builder.name() == name@,
            builder.opts().log,
            !builder.opts().bytes,
            builder.byte_delay().is_none(),
            builder.generator().is_none(),
    {
        crate::dev::spi::mock::MockBuilder::new(name)
    }
}

/// Starts an intercept around a device.
#[derive(Debug)]
pub struct Intercept;

impl Intercept {
    /// Starts an intercept named `name` for an output line.
    pub fn pin(name: &str) -> (builder: crate::dev::output::intercept::InterceptBuilder)
        ensures
            builder.name() == name@,
            builder.log(),
    {
        crate::dev::output::intercept::InterceptBuilder::new(name)
    }

    /// Starts an intercept named `name` for an SPI device.
    pub fn spi(name: &str) -> (builder: crate::dev::spi::intercept::InterceptBuilder)
        ensures
            builder.name() == name@,
            builder.opts().log,
            !builder.opts().bytes,
    {
        crate::dev::spi::intercept::InterceptBuilder::new(name)
    }
}

} // verus!
