//! A transport that brackets every exchange between a select and a deselect
//! of its own chip-select line.
use crate::hal::outcome;
use crate::hal::OutputPin;
use crate::hal::Polarity;
use crate::hal::Transfer;
use crate::transport::error::Error;
use crate::transport::traits::declined;
use crate::transport::traits::error_after_cleanup;
use crate::transport::traits::reported_error;
use crate::transport::traits::ChipSelect;
use crate::transport::traits::SpiDev;
use vstd::prelude::*;

verus! {

/// The level that selects the chip: low when the line idles high, high when
/// it idles low.
pub open spec fn select_level(polarity: Polarity) -> bool {
    polarity is IdleLow
}

/// The level of the line while the chip is deselected.
pub open spec fn idle_level(polarity: Polarity) -> bool {
    polarity is IdleHigh
}

/// A device's own error is not passed on: success stays success, and every
/// failure is reported as `error`.
pub open spec fn reported_as<E>(r: Result<(), E>, error: Error) -> Result<(), Error> {
    match r {
        Ok(_) => Ok(()),
        Err(_) => Err(error),
    }
}

/// The result of a transfer whose exchange ended with `exchange` and whose
/// deselect, made after the exchange whatever its end, ended with `release`.
pub open spec fn settled(exchange: Result<(), Error>, release: Result<(), Error>) -> Result<
    (),
    Error,
> {
    match exchange {
        Ok(_) => release,
        Err(cause) => Err(error_after_cleanup(cause, release)),
    }
}

/// An SPI device together with the output line that selects its chip.
pub struct Transport<SPI, CS> {
    spi: SPI,
    cs: CS,
    polarity: Polarity,
}

impl<SPI: Transfer, CS: OutputPin> Transport<SPI, CS> {
    /// The SPI device inside the transport.
    pub closed spec fn device(self) -> SPI {
        self.spi
    }

    /// The chip-select line inside the transport.
    pub closed spec fn line(self) -> CS {
        self.cs
    }

    /// The idle level the transport was made for.
    pub closed spec fn polarity(self) -> Polarity {
        self.polarity
    }

    /// One attempt to drive the line to `high`, reported as `error` if it
    /// fails. The SPI device and the polarity are not touched.
    pub open spec fn drives(pre: Self, post: Self, high: bool, error: Error, r: Result<(), Error>) -> bool {
        &&& post.device() == pre.device()
        &&& post.polarity() == pre.polarity()
        &&& exists|line: Result<(), CS::Error>| #[trigger]
            CS::driven(pre.line(), post.line(), high, line) && r == reported_as(line, error)
    }

    /// One attempt to drive the line to the select level.
    pub open spec fn selects(pre: Self, post: Self, r: Result<(), Error>) -> bool {
        Self::drives(pre, post, select_level(pre.polarity()), Error::ChipSelect, r)
    }

    /// One attempt to drive the line to the idle level.
    pub open spec fn deselects(pre: Self, post: Self, r: Result<(), Error>) -> bool {
        Self::drives(pre, post, idle_level(pre.polarity()), Error::ChipDeselect, r)
    }

    /// One exchange on the SPI device, reported as `Error::Transfer` if it
    /// fails. The line and the polarity are not touched.
    pub open spec fn exchanges(
        pre: Self,
        post: Self,
        tx: Seq<u8>,
        rx: Seq<u8>,
        r: Result<(), Error>,
    ) -> bool {
        &&& post.line() == pre.line()
        &&& post.polarity() == pre.polarity()
        &&& exists|device: Result<(), SPI::Error>| #[trigger]
            SPI::exchanged(pre.device(), post.device(), tx, rx, device) && r == reported_as(
                device,
                Error::Transfer,
            )
    }

    /// One exchange, followed by one deselect if and only if the exchange
    /// failed.
    pub open spec fn exchanges_or_deselects(
        pre: Self,
        post: Self,
        tx: Seq<u8>,
        rx: Seq<u8>,
        r: Result<(), Error>,
    ) -> bool {
        exists|mid: Self, exchange: Result<(), Error>| #[trigger]
            Self::exchanges(pre, mid, tx, rx, exchange) && match exchange {
                Ok(_) => post == mid && r == exchange,
                Err(cause) => exists|release: Result<(), Error>| #[trigger]
                    Self::deselects(mid, post, release) && r == Err::<(), Error>(
                        error_after_cleanup(cause, release),
                    ),
            }
    }

    /// One select; if it fails, nothing more. Otherwise one exchange and then
    /// one deselect, whatever the exchange came to.
    pub open spec fn transfers(
        pre: Self,
        post: Self,
        tx: Seq<u8>,
        rx: Seq<u8>,
        r: Result<(), Error>,
    ) -> bool {
        exists|selected: Self, select: Result<(), Error>| #[trigger]
            Self::selects(pre, selected, select) && match select {
                Err(_) => post == selected && rx == tx && r == select,
                Ok(_) => exists|exchanged: Self, exchange: Result<(), Error>| #[trigger]
                    Self::exchanges(selected, exchanged, tx, rx, exchange) && exists|
                        release: Result<(), Error>,
                    | #[trigger]
                        Self::deselects(exchanged, post, release) && r == settled(
                            exchange,
                            release,
                        ),
            }
    }

    /// Puts the transport together and drives the line to its idle level. A
    /// failure to do so is not reported: the first transfer deselects again.
    pub fn new(spi: SPI, cs: CS, polarity: Polarity) -> (transport: Self)
        ensures
            transport.device() == spi,
            transport.polarity() == polarity,
            exists|line: Result<(), CS::Error>| #[trigger]
                CS::driven(cs, transport.line(), idle_level(polarity), line),
    {
        let mut transport = Transport { spi, cs, polarity };
        let _ = transport.drive(idle_level_of(polarity));
        transport
    }

    /// Drives the line high or low and says whether that worked.
    fn drive(&mut self, high: bool) -> (done: bool)
        ensures
            final(self).device() == old(self).device(),
            final(self).polarity() == old(self).polarity(),
            exists|line: Result<(), CS::Error>| #[trigger]
                CS::driven(old(self).line(), final(self).line(), high, line) && done == (line is Ok),
    {
        let ghost pre = *self;
        let line = if high {
            self.cs.set_high()
        } else {
            self.cs.set_low()
        };
        proof {
            assert(CS::driven(pre.line(), self.line(), high, line));
        }
        line.is_ok()
    }
}

/// The level of the line while the chip is deselected.
pub fn idle_level_of(polarity: Polarity) -> (high: bool)
    ensures
        high == idle_level(polarity),
{
    match polarity {
        Polarity::IdleHigh => true,
        Polarity::IdleLow => false,
    }
}

/// The level that selects the chip.
pub fn select_level_of(polarity: Polarity) -> (high: bool)
    ensures
        high == select_level(polarity),
{
    match polarity {
        Polarity::IdleHigh => false,
        Polarity::IdleLow => true,
    }
}

impl<SPI: Transfer, CS: OutputPin> Transfer for Transport<SPI, CS> {
    type Error = Error;

    open spec fn exchanged(
        pre: Self,
        post: Self,
        tx: Seq<u8>,
        rx: Seq<u8>,
        r: Result<(), Error>,
    ) -> bool {
        Self::transfers(pre, post, tx, rx, r)
    }

    /// Selects the chip, exchanges the buffer, and deselects the chip.
    ///
    /// If the select fails, `ChipSelect` is returned and nothing else is tried.
    /// If the exchange fails the chip is still deselected, and the failure of
    /// the exchange is returned unless the deselect fails too. A deselect that
    /// fails is always reported as `ChipDeselect`, after a successful exchange
    /// as well.
    fn transfer<'w>(&mut self, words: &'w mut [u8]) -> (r: Result<&'w [u8], Error>) {
        match self.select() {
            Err(error) => Err(error),
            Ok(_) => {
                let failure = match self.raw_transfer_or_deselect(words) {
                    Ok(_) => None,
                    Err(error) => Some(error),
                };
                match failure {
                    Some(error) => Err(error),
                    None => {
                        match self.deselect() {
                            Ok(_) => Ok(words),
                            Err(error) => Err(error),
                        }
                    },
                }
            },
        }
    }
}

impl<SPI: Transfer, CS: OutputPin> SpiDev for Transport<SPI, CS> {
    open spec fn chip_select_capable(&self) -> bool {
        true
    }

    open spec fn clock_speed_capable(&self) -> bool {
        false
    }

    open spec fn selected(pre: Self, post: Self, r: Result<(), Error>) -> bool {
        Self::selects(pre, post, r)
    }

    open spec fn deselected(pre: Self, post: Self, r: Result<(), Error>) -> bool {
        Self::deselects(pre, post, r)
    }

    open spec fn raw_exchanged(
        pre: Self,
        post: Self,
        tx: Seq<u8>,
        rx: Seq<u8>,
        r: Result<(), Error>,
    ) -> bool {
        Self::exchanges(pre, post, tx, rx, r)
    }

    open spec fn clocked(pre: Self, post: Self, speed: u32, r: Result<(), Error>) -> bool {
        false
    }

    fn is_chip_select(&self) -> (capable: bool)
        ensures
            capable,
    {
        true
    }

    fn select(&mut self) -> (r: Result<(), Error>)
        ensures
            Self::selects(*old(self), *final(self), r),
    {
        if self.drive(select_level_of(self.polarity)) {
            Ok(())
        } else {
            Err(Error::ChipSelect)
        }
    }

    fn deselect(&mut self) -> (r: Result<(), Error>)
        ensures
            Self::deselects(*old(self), *final(self), r),
    {
        if self.drive(idle_level_of(self.polarity)) {
            Ok(())
        } else {
            Err(Error::ChipDeselect)
        }
    }

    fn raw_transfer<'w>(&mut self, words: &'w mut [u8]) -> (r: Result<&'w [u8], Error>)
        ensures
            Self::exchanges(*old(self), *final(self), old(words)@, final(words)@, outcome(r)),
    {
        let ghost pre = *self;
        let ghost tx = words@;
        let device = self.spi.transfer(words);
        let ghost end = outcome(device);
        let done = device.is_ok();
        proof {
            assert(SPI::exchanged(pre.device(), self.device(), tx, words@, end));
        }
        if done {
            Ok(words)
        } else {
            Err(Error::Transfer)
        }
    }

    fn raw_transfer_or_deselect<'w>(&mut self, words: &'w mut [u8]) -> (r: Result<
        &'w [u8],
        Error,
    >)
        ensures
            Self::exchanges_or_deselects(
                *old(self),
                *final(self),
                old(words)@,
                final(words)@,
                outcome(r),
            ),
    {
        let ghost pre = *self;
        let failure = match self.raw_transfer(words) {
            Ok(_) => None,
            Err(cause) => Some(cause),
        };
        let ghost mid = *self;
        match failure {
            None => {
                proof {
                    let _ = declined(pre, mid, Ok::<(), Error>(()));
                }
                Ok(words)
            },
            Some(cause) => {
                let release = self.deselect();
                proof {
                    let _ = declined(pre, mid, Err::<(), Error>(cause));
                    let _ = declined(mid, *self, release);
                }
                Err(reported_error(cause, release))
            },
        }
    }
}

impl<SPI: Transfer, CS: OutputPin> ChipSelect for Transport<SPI, CS> {

}

/// A transfer that succeeds has made one select, then one exchange, then one
/// deselect, in that order and nothing else, and each of them succeeded.
pub proof fn lemma_success_is_bracketed<SPI: Transfer, CS: OutputPin>(
    pre: Transport<SPI, CS>,
    post: Transport<SPI, CS>,
    tx: Seq<u8>,
    rx: Seq<u8>,
)
    requires
        Transport::<SPI, CS>::transfers(pre, post, tx, rx, Ok(())),
    ensures
        exists|selected: Transport<SPI, CS>, exchanged: Transport<SPI, CS>|
            #![trigger
                Transport::<SPI, CS>::selects(pre, selected, Ok(())),
                Transport::<SPI, CS>::deselects(exchanged, post, Ok(()))
            ]
            {
                &&& Transport::<SPI, CS>::selects(pre, selected, Ok(()))
                &&& Transport::<SPI, CS>::exchanges(selected, exchanged, tx, rx, Ok(()))
                &&& Transport::<SPI, CS>::deselects(exchanged, post, Ok(()))
            },
{
    let (selected, select) = choose|selected: Transport<SPI, CS>, select: Result<(), Error>| #[trigger]
        Transport::<SPI, CS>::selects(pre, selected, select) && match select {
            Err(_) => post == selected && rx == tx && Ok::<(), Error>(()) == select,
            Ok(_) => exists|exchanged: Transport<SPI, CS>, exchange: Result<(), Error>| #[trigger]
                Transport::<SPI, CS>::exchanges(selected, exchanged, tx, rx, exchange) && exists|
                    release: Result<(), Error>,
                | #[trigger]
                    Transport::<SPI, CS>::deselects(exchanged, post, release) && Ok::<(), Error>(
                        (),
                    ) == settled(exchange, release),
        };
    let (exchanged, exchange) = choose|exchanged: Transport<SPI, CS>, exchange: Result<(), Error>| #[trigger]
        Transport::<SPI, CS>::exchanges(selected, exchanged, tx, rx, exchange) && exists|
            release: Result<(), Error>,
        | #[trigger]
            Transport::<SPI, CS>::deselects(exchanged, post, release) && Ok::<(), Error>(())
                == settled(exchange, release);
    let release = choose|release: Result<(), Error>| #[trigger]
        Transport::<SPI, CS>::deselects(exchanged, post, release) && Ok::<(), Error>(())
            == settled(exchange, release);
    assert(Transport::<SPI, CS>::selects(pre, selected, Ok(())));
    assert(Transport::<SPI, CS>::deselects(exchanged, post, Ok(())));
}

} // verus!
