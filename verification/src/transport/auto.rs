//! A transport for an SPI device that selects and deselects its chip by
//! itself.
use crate::hal::outcome;
use crate::hal::Transfer;
use crate::transport::cs::reported_as;
use crate::transport::error::Error;
use crate::transport::traits::SpiDev;
use vstd::prelude::*;

verus! {

/// An SPI device that manages chip selection on its own, behind the crate's
/// error type. It has none of the optional capabilities.
pub struct Transport<SPI> {
    spi: SPI,
}

impl<SPI: Transfer> Transport<SPI> {
    /// The SPI device inside the transport.
    pub closed spec fn device(self) -> SPI {
        self.spi
    }

    pub fn new(spi: SPI) -> (transport: Self)
        ensures
            transport.device() == spi,
    {
        Transport { spi }
    }
}

impl<SPI: Transfer> Transfer for Transport<SPI> {
    type Error = Error;

    /// One exchange on the SPI device, reported as `Error::Transfer` if it
    /// fails.
    open spec fn exchanged(
        pre: Self,
        post: Self,
        tx: Seq<u8>,
        rx: Seq<u8>,
        r: Result<(), Error>,
    ) -> bool {
        exists|device: Result<(), SPI::Error>| #[trigger]
            SPI::exchanged(pre.device(), post.device(), tx, rx, device) && r == reported_as(
                device,
                Error::Transfer,
            )
    }

    fn transfer<'w>(&mut self, words: &'w mut [u8]) -> (r: Result<&'w [u8], Error>) {
        let ghost pre = *self;
        let ghost tx = words@;
        let device = self.spi.transfer(words);
        let ghost end = outcome(device);
        let done = device.is_ok();
        proof {
            assert(SPI::exchanged(pre.device(), self.device(), tx, words@, end));
        }
        if done {
            Ok(words)
        } else {
            Err(Error::Transfer)
        }
    }
}

impl<SPI: Transfer> SpiDev for Transport<SPI> {
    open spec fn chip_select_capable(&self) -> bool {
        false
    }

    open spec fn clock_speed_capable(&self) -> bool {
        false
    }

    open spec fn selected(pre: Self, post: Self, r: Result<(), Error>) -> bool {
        false
    }

    open spec fn deselected(pre: Self, post: Self, r: Result<(), Error>) -> bool {
        false
    }

    open spec fn raw_exchanged(
        pre: Self,
        post: Self,
        tx: Seq<u8>,
        rx: Seq<u8>,
        r: Result<(), Error>,
    ) -> bool {
        false
    }

    open spec fn clocked(pre: Self, post: Self, speed: u32, r: Result<(), Error>) -> bool {
        false
    }
}

} // verus!
