//! The device interfaces the transports are written against.
//!
//! A device says what an operation may do by a relation over its own state:
//! `pre` is the device before the call, `post` the device after it. Nothing
//! else is assumed of a device, so a relation may admit several outcomes for
//! one call (a line that sometimes fails, a peripheral whose answer is not
//! known in advance).
use vstd::prelude::*;

verus! {

/// The level of the chip-select line while no exchange is under way.
#[derive(Clone, Copy, Debug, PartialEq, Eq, Structural)]
pub enum Polarity {
    IdleLow,
    IdleHigh,
}

/// Forgets the value a successful call handed back and keeps whether, and
/// with which error, it failed.
pub open spec fn outcome<T, E>(r: Result<T, E>) -> Result<(), E> {
    match r {
        Ok(_) => Ok(()),
        Err(e) => Err(e),
    }
}

/// A device that exchanges bytes in place: the buffer holds what is sent when
/// the call starts and what was received when it returns.
pub trait Transfer: Sized {
    type Error;

    /// Whether an exchange that starts with the device in `pre` and the buffer
    /// holding `tx` can end with the device in `post`, the buffer holding `rx`,
    /// and the call returning `r`. A device that does not say admits every
    /// end.
    open spec fn exchanged(
        pre: Self,
        post: Self,
        tx: Seq<u8>,
        rx: Seq<u8>,
        r: Result<(), Self::Error>,
    ) -> bool {
        true
    }

    fn transfer<'w>(&mut self, words: &'w mut [u8]) -> (r: Result<&'w [u8], Self::Error>)
        ensures
            Self::exchanged(*old(self), *final(self), old(words)@, final(words)@, outcome(r)),
            final(words)@.len() == old(words)@.len(),
            r matches Ok(rx) ==> rx@ == final(words)@,
    ;
}

/// A digital output line.
pub trait OutputPin: Sized {
    type Error;

    /// Whether an attempt to drive the line high (`high`) or low can take the
    /// line from `pre` to `post` and return `r`. A line that does not say
    /// admits every end.
    open spec fn driven(pre: Self, post: Self, high: bool, r: Result<(), Self::Error>) -> bool {
        true
    }

    fn set_high(&mut self) -> (r: Result<(), Self::Error>)
        ensures
            Self::driven(*old(self), *final(self), true, r),
    ;

    fn set_low(&mut self) -> (r: Result<(), Self::Error>)
        ensures
            Self::driven(*old(self), *final(self), false, r),
    ;
}

} // verus!
