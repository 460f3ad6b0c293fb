//! The failures of a single state query. Each is recoverable: it is told to
//! the worker as text and costs no more than the one report.

use vstd::prelude::*;
use vstd::string::*;
use crate::probe::ProbeFailure;

verus! {

/// The keyboard layout could not be told.
#[derive(Clone, Copy, Debug, PartialEq, Eq, Structural)]
pub enum GetKeyboardLayoutError {
    /// The probe of the focused window failed.
    Probe(ProbeFailure),
    /// The language of the layout is not in the locale map.
    UnknownLanguage,
    /// The system has no locale name for the language of an installed layout.
    UnresolvedLocale,
    /// The probe was after something else.
    WrongOutcome,
}

/// The open status of the input method could not be told.
#[derive(Clone, Copy, Debug, PartialEq, Eq, Structural)]
pub enum GetOpenStatusError {
    /// The probe of the focused window failed.
    Probe(ProbeFailure),
    /// The probe was after something else.
    WrongOutcome,
}

/// The current input source could not be told; the text says why.
#[derive(Clone, Debug, PartialEq, Eq)]
pub struct MacError(pub String);

impl GetKeyboardLayoutError {
    /// The text that is printed for this failure; it does not tell the
    /// causes apart.
    pub fn describe(&self) -> (text: String)
        ensures
            text@ == "GetKeyboardLayoutError"@,
    {
        String::from_str("GetKeyboardLayoutError")
    }
}

impl GetOpenStatusError {
    /// The text that is printed for this failure; it does not tell the
    /// causes apart.
    pub fn describe(&self) -> (text: String)
        ensures
            text@ == "GetOpenStatusError"@,
    {
        String::from_str("GetOpenStatusError")
    }
}

impl MacError {
    /// The text that is printed for this failure.
    pub fn describe(&self) -> (text: String)
        ensures
            text@ == "MacError: "@ + self.0@,
    {
        let mut text = String::from_str("MacError: ");
        text.append(self.0.as_str());
        text
    }
}

} // verus!
