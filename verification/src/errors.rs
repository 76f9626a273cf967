use vstd::prelude::*;
use vstd::string::StringExecFns;

verus! {

/// Everything that can go wrong in the core.
#[derive(Debug, PartialEq)]
pub enum Error {
    /// A distance field did not hold a decimal number.
    ParseDistanceError,
    /// A duration field did not hold `S`, `M:S` or `H:M:S`.
    ParseDurationError,
    /// A mass field did not hold a decimal number.
    ParseMassError,
    /// A step count was not a plain non-negative integer.
    ParseStepsError,
    /// A clock time was not of the form `HH:MM`.
    ParseTimeError,
    /// A unit system name was neither `SI` nor `USA`.
    ParseUnitsError,
    /// The operation needs an open series and none is open.
    SeriesNotOpen,
    /// The record store failed; the payload is its own description.
    TraxError(String),
    /// Reading or writing the configuration failed; the payload is the description.
    IOError(String),
}

impl Error {
    /// The text shown when a message carries no detail of its own.
    pub open spec fn headline(self) -> Seq<char> {
        match self {
            Error::ParseDistanceError => "Failed to parse a distance string"@,
            Error::ParseDurationError => "Failed to parse a duration string"@,
            Error::ParseMassError => "Failed to parse a mass string"@,
            Error::ParseStepsError => "Failed to parse a number of steps"@,
            Error::ParseTimeError => "Failed to parse a time"@,
            Error::ParseUnitsError => "Failed to parse a units string"@,
            Error::SeriesNotOpen => "There is no series open"@,
            Error::TraxError(_) => "Trax encountered an error: "@,
            Error::IOError(_) => "IO Error: "@,
        }
    }

    /// The detail that a wrapped failure carries; empty for the others.
    pub open spec fn detail(self) -> Seq<char> {
        match self {
            Error::TraxError(err) => err@,
            Error::IOError(err) => err@,
            _ => Seq::<char>::empty(),
        }
    }

    /// True for the six failures of user input, which a text field recovers from.
    pub open spec fn is_parse_error(self) -> bool {
        self is ParseDistanceError || self is ParseDurationError || self is ParseMassError
            || self is ParseStepsError || self is ParseTimeError || self is ParseUnitsError
    }

    /// The message for a person: the headline, followed by the detail of a
    /// wrapped failure.
    pub fn message(&self) -> (text: String)
        ensures
            text@ == self.headline() + self.detail(),
    {
        match self {
            Error::ParseDistanceError => String::from_str("Failed to parse a distance string"),
            Error::ParseDurationError => String::from_str("Failed to parse a duration string"),
            Error::ParseMassError => String::from_str("Failed to parse a mass string"),
            Error::ParseStepsError => String::from_str("Failed to parse a number of steps"),
            Error::ParseTimeError => String::from_str("Failed to parse a time"),
            Error::ParseUnitsError => String::from_str("Failed to parse a units string"),
            Error::SeriesNotOpen => String::from_str("There is no series open"),
            Error::TraxError(err) => String::from_str("Trax encountered an error: ").concat(
                err.as_str(),
            ),
            Error::IOError(err) => String::from_str("IO Error: ").concat(err.as_str()),
        }
    }

    /// The short description: the headline of a plain failure, the detail of a
    /// wrapped one.
    pub fn description(&self) -> (text: String)
        ensures
            text@ == (if self is TraxError || self is IOError {
                self.detail()
            } else {
                self.headline()
            }),
    {
        match self {
            Error::TraxError(err) => err.clone(),
            Error::IOError(err) => err.clone(),
            _ => self.message(),
        }
    }

    /// The description of the failure underneath, where there is one.
    pub fn cause(&self) -> (inner: Option<String>)
        ensures
            inner is Some <==> (self is TraxError || self is IOError),
            inner matches Some(text) ==> text@ == self.detail(),
    {
        match self {
            Error::TraxError(err) => Some(err.clone()),
            Error::IOError(err) => Some(err.clone()),
            _ => None,
        }
    }
}

} // verus!
