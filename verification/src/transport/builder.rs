//! Step-by-step construction of a transport.
use crate::hal::OutputPin;
use crate::hal::Polarity;
use crate::hal::Transfer;
use crate::transport::cs::idle_level;
use vstd::prelude::*;

verus! {

/// Starts a transport from an SPI device.
pub struct Transport<SPI: Transfer> {
    spi: SPI,
}

impl<SPI: Transfer> Transport<SPI> {
    /// The SPI device the transport will be made of.
    pub closed spec fn device(self) -> SPI {
        self.spi
    }

    pub fn new(spi: SPI) -> (builder: Self)
        ensures
            builder.device() == spi,
    {
        Transport { spi }
    }

    /// Adds the line that selects the chip. The line is taken to idle high
    /// unless `with_polarity` says otherwise.
    pub fn with_chip_select<CS: OutputPin>(self, cs: CS) -> (builder: ChipSelectTransport<SPI, CS>)
        ensures
            builder.device() == self.device(),
            builder.line() == cs,
            builder.polarity() == Polarity::IdleHigh,
    {
        ChipSelectTransport { spi: self.spi, polarity: Polarity::IdleHigh, cs }
    }

    /// Makes the transport. The SPI device has to select its chip by itself.
    pub fn init(self) -> (transport: crate::transport::auto::Transport<SPI>)
        ensures
            transport.device() == self.device(),
    {
        crate::transport::auto::Transport::new(self.spi)
    }
}

/// Continues a transport that selects its chip through an output line.
pub struct ChipSelectTransport<SPI: Transfer, CS: OutputPin> {
    spi: SPI,
    cs: CS,
    polarity: Polarity,
}

impl<SPI: Transfer, CS: OutputPin> ChipSelectTransport<SPI, CS> {
    /// The SPI device the transport will be made of.
    pub closed spec fn device(self) -> SPI {
        self.spi
    }

    /// The chip-select line the transport will be made of.
    pub closed spec fn line(self) -> CS {
        self.cs
    }

    /// The idle level the transport will be made for.
    pub closed spec fn polarity(self) -> Polarity {
        self.polarity
    }

    pub fn with_polarity(self, polarity: Polarity) -> (builder: Self)
        ensures
            builder.device() == self.device(),
            builder.line() == self.line(),
            builder.polarity() == polarity,
    {
        ChipSelectTransport { spi: self.spi, cs: self.cs, polarity }
    }

    /// Makes the transport, which drives the line to its idle level at once.
    pub fn init(self) -> (transport: crate::transport::cs::Transport<SPI, CS>)
        ensures
            transport.device() == self.device(),
            transport.polarity() == self.polarity(),
            exists|line: Result<(), CS::Error>| #[trigger]
                CS::driven(self.line(), transport.line(), idle_level(self.polarity()), line),
    {
        let transport = crate::transport::cs::Transport::new(self.spi, self.cs, self.polarity);
        proof {
            let line = choose|line: Result<(), CS::Error>| #[trigger]
                CS::driven(self.cs, transport.line(), idle_level(self.polarity), line);
            assert(CS::driven(self.line(), transport.line(), idle_level(self.polarity()), line));
        }
        transport
    }
}

} // verus!
