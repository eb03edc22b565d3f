//! What a transport may be able to do.
//!
//! Every capability has a default that declines: it reports
//! [`Error::NotImplemented`] and leaves the device as it was. A device
//! overrides the capabilities it has, and one that has none says so through
//! `chip_select_capable` and `clock_speed_capable`.
use crate::hal::outcome;
use crate::hal::Transfer;
use crate::transport::error::Error;
use vstd::prelude::*;

verus! {

/// The call was declined: nothing changed and `NotImplemented` came back.
pub open spec fn declined<D>(pre: D, post: D, r: Result<(), Error>) -> bool {
    post == pre && r == Err::<(), Error>(Error::NotImplemented)
}

/// The error to report when an exchange failed with `cause` and the
/// deselect that followed it ended with `cleanup`. A chip that could not be
/// deselected is reported in place of the failure that came before it.
pub open spec fn error_after_cleanup(cause: Error, cleanup: Result<(), Error>) -> Error {
    if cleanup is Ok {
        cause
    } else {
        Error::ChipDeselect
    }
}

/// An SPI device behind the crate's error type, with the capabilities a
/// transport may have on top of the plain transfer.
pub trait SpiDev: Transfer<Error = Error> {
    /// Whether the device may drive a chip-select line. Where this is false,
    /// `select`, `deselect` and `raw_transfer` decline; where it is true, each
    /// of them declines or does what `selected`, `deselected` and
    /// `raw_exchanged` say. A device that does not say may do either.
    open spec fn chip_select_capable(&self) -> bool {
        true
    }

    /// Whether the device may change its clock speed. Where this is false,
    /// `set_clock_speed` declines.
    open spec fn clock_speed_capable(&self) -> bool {
        true
    }

    /// What `select` does where it does not decline.
    open spec fn selected(pre: Self, post: Self, r: Result<(), Error>) -> bool {
        true
    }

    /// What `deselect` does where it does not decline.
    open spec fn deselected(pre: Self, post: Self, r: Result<(), Error>) -> bool {
        true
    }

    /// What `raw_transfer` does where it does not decline.
    open spec fn raw_exchanged(
        pre: Self,
        post: Self,
        tx: Seq<u8>,
        rx: Seq<u8>,
        r: Result<(), Error>,
    ) -> bool {
        true
    }

    /// What `set_clock_speed` does where it does not decline.
    open spec fn clocked(pre: Self, post: Self, speed: u32, r: Result<(), Error>) -> bool {
        true
    }

    /// Whether chip selection can be controlled. A device never claims a
    /// capability it does not have.
    fn is_chip_select(&self) -> (capable: bool)
        ensures
            capable ==> self.chip_select_capable(),
    {
        false
    }

    /// Whether the clock speed can be controlled.
    fn is_clock_speed(&self) -> (capable: bool)
        ensures
            capable ==> self.clock_speed_capable(),
    {
        false
    }

    /// Select the chip. This usually drives the line low; with the other
    /// polarity it drives the line high.
    fn select(&mut self) -> (r: Result<(), Error>)
        ensures
            declined(*old(self), *final(self), r) || (old(self).chip_select_capable()
                && Self::selected(*old(self), *final(self), r)),
    {
        Err(Error::NotImplemented)
    }

    /// Deselect the chip: drive the line to its idle level.
    fn deselect(&mut self) -> (r: Result<(), Error>)
        ensures
            declined(*old(self), *final(self), r) || (old(self).chip_select_capable()
                && Self::deselected(*old(self), *final(self), r)),
    {
        Err(Error::NotImplemented)
    }

    /// Exchange bytes with the chip without selecting or deselecting it.
    fn raw_transfer<'w>(&mut self, words: &'w mut [u8]) -> (r: Result<&'w [u8], Error>)
        ensures
            (declined(*old(self), *final(self), outcome(r)) && final(words)@ == old(words)@) || (
            old(self).chip_select_capable() && Self::raw_exchanged(
                *old(self),
                *final(self),
                old(words)@,
                final(words)@,
                outcome(r),
            )),
            final(words)@.len() == old(words)@.len(),
            r matches Ok(rx) ==> rx@ == final(words)@,
    {
        Err(Error::NotImplemented)
    }

    /// Exchange bytes with the chip without selecting it, and deselect it only
    /// if the exchange fails.
    fn raw_transfer_or_deselect<'w>(&mut self, words: &'w mut [u8]) -> (r: Result<
        &'w [u8],
        Error,
    >)
        ensures
            exists|mid: Self, first: Result<(), Error>|
                #![trigger declined(*old(self), mid, first)]
                {
                    &&& (declined(*old(self), mid, first) && final(words)@ == old(words)@) || (
                    old(self).chip_select_capable() && Self::raw_exchanged(
                        *old(self),
                        mid,
                        old(words)@,
                        final(words)@,
                        first,
                    ))
                    &&& match first {
                        Ok(_) => *final(self) == mid && outcome(r) == first,
                        Err(cause) => exists|cleanup: Result<(), Error>|
                            #![trigger declined(mid, *final(self), cleanup)]
                            {
                                &&& declined(mid, *final(self), cleanup) || (
                                mid.chip_select_capable() && Self::deselected(
                                    mid,
                                    *final(self),
                                    cleanup,
                                ))
                                &&& outcome(r) == Err::<(), Error>(
                                    error_after_cleanup(cause, cleanup),
                                )
                            },
                    }
                },
            final(words)@.len() == old(words)@.len(),
            r matches Ok(rx) ==> rx@ == final(words)@,
    {
        let ghost pre = *self;
        let failure = match self.raw_transfer(words) {
            Ok(_) => None,
            Err(cause) => Some(cause),
        };
        let ghost mid = *self;
        match failure {
            None => {
                proof {
                    let _ = declined(pre, mid, Ok::<(), Error>(()));
                }
                Ok(words)
            },
            Some(cause) => {
                let cleanup = self.deselect();
                let error = reported_error(cause, cleanup);
                proof {
                    let _ = declined(mid, *self, cleanup);
                    let _ = declined(pre, mid, Err::<(), Error>(cause));
                }
                Err(error)
            },
        }
    }

    /// Set the SPI clock speed, in hertz.
    fn set_clock_speed(&mut self, speed: u32) -> (r: Result<(), Error>)
        ensures
            declined(*old(self), *final(self), r) || (old(self).clock_speed_capable()
                && Self::clocked(*old(self), *final(self), speed, r)),
    {
        Err(Error::NotImplemented)
    }
}

/// The error to report when an exchange failed with `cause` and the
/// deselect that followed it ended with `cleanup`.
pub fn reported_error(cause: Error, cleanup: Result<(), Error>) -> (error: Error)
    ensures
        error == error_after_cleanup(cause, cleanup),
{
    match cleanup {
        Ok(_) => cause,
        Err(_) => Error::ChipDeselect,
    }
}

/// Marks a transport whose chip selection is driven by an output line that the
/// user handed to it.
pub trait ChipSelect: SpiDev {

}

/// Marks a transport whose clock speed can be set while it is in use.
pub trait ClockSpeed: SpiDev {

}

} // verus!
