use vstd::prelude::*;
use vstd::string::StringExecFns;

verus! {

/// What can go wrong on a transport. Which of these a transport can return
/// depends on what it is made of.
#[derive(Clone, Copy, Debug, PartialEq, Eq, Structural)]
pub enum Error {
    /// The byte exchange itself failed.
    Transfer,
    /// The chip could not be selected.
    ChipSelect,
    /// The chip could not be deselected, and may still be selected.
    ChipDeselect,
    /// The clock speed could not be changed.
    ClockSpeed,
    /// The device does not have the capability that was asked for.
    NotImplemented,
}

impl Error {
    /// The text of `message`, character by character.
    pub open spec fn message_text(self) -> Seq<char> {
        match self {
            Error::Transfer => "SPI transfer error"@,
            Error::ChipSelect => "Select SPI chip error"@,
            Error::ChipDeselect => "Deselect SPI chip error"@,
            Error::ClockSpeed => "Set SPI clock speed error"@,
            Error::NotImplemented => "That feature is not implemented"@,
        }
    }

    /// A sentence for people, one per variant.
    pub fn message(&self) -> (text: String)
        ensures
            text@ == self.message_text(),
    {
        match self {
            Error::Transfer => String::from_str("SPI transfer error"),
            Error::ChipSelect => String::from_str("Select SPI chip error"),
            Error::ChipDeselect => String::from_str("Deselect SPI chip error"),
            Error::ClockSpeed => String::from_str("Set SPI clock speed error"),
            Error::NotImplemented => String::from_str("That feature is not implemented"),
        }
    }
}

} // verus!
