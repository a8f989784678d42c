//! Transport configuration values: the serial-line shape a session runs
//! over. The session itself never reads them; the calling layer turns them
//! into its serial port's own settings.

use vstd::prelude::*;

verus! {

/// Number of data bits per character.
#[derive(Clone, Copy, Debug, PartialEq, Eq, Structural)]
pub enum DataBits {
    Five,
    Six,
    Seven,
    Eight,
}

impl DataBits {
    /// The number of bits the variant stands for.
    pub fn bit_count(self) -> (r: u8)
        ensures
            r == match self {
                DataBits::Five => 5u8,
                DataBits::Six => 6u8,
                DataBits::Seven => 7u8,
                DataBits::Eight => 8u8,
            },
    {
        match self {
            DataBits::Five => 5,
            DataBits::Six => 6,
            DataBits::Seven => 7,
            DataBits::Eight => 8,
        }
    }
}

/// Parity protection applied to each character.
#[derive(Clone, Copy, Debug, PartialEq, Eq, Structural)]
pub enum Parity {
    Even,
    Odd,
    NoParity,
}

/// Number of stop bits after the data bits.
#[derive(Clone, Copy, Debug, PartialEq, Eq, Structural)]
pub enum StopBits {
    One,
    Two,
}

impl StopBits {
    /// The number of stop bits the variant stands for.
    pub fn bit_count(self) -> (r: u8)
        ensures
            r == match self {
                StopBits::One => 1u8,
                StopBits::Two => 2u8,
            },
    {
        match self {
            StopBits::One => 1,
            StopBits::Two => 2,
        }
    }
}

} // verus!
