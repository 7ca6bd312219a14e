//! The two ways in which a request for activation keys can fail.

use vstd::prelude::*;

verus! {

/// Why no key was produced.
#[derive(Debug, Clone, Copy, PartialEq, Eq, Structural)]
pub enum ActivationError {
    /// The raw input is not a machine code: too short after trimming, or
    /// it holds a character outside the accepted set.
    InvalidMachineCode,
    /// A digest's hexadecimal text is shorter than the range that the key
    /// is cut from. With the fixed hash families this cannot happen.
    DerivationError,
}

impl ActivationError {
    /// The text of the error, as shown to a person.
    pub open spec fn text(self) -> Seq<char> {
        match self {
            ActivationError::InvalidMachineCode => "invalid machine code"@,
            ActivationError::DerivationError => "digest too short for the key range"@,
        }
    }

    /// A short description of the error.
    pub fn message(&self) -> (s: String)
        ensures
            s@ == self.text(),
    {
        match self {
            ActivationError::InvalidMachineCode => "invalid machine code".to_owned(),
            ActivationError::DerivationError => "digest too short for the key range".to_owned(),
        }
    }
}

} // verus!
