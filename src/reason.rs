use vstd::prelude::*;

verus! {

/// The separator between the date part and the serial part of an identifier.
#[derive(Debug, Clone, Copy, PartialEq, Eq, Structural)]
pub enum Separator {
    /// `-`, used by holders younger than one hundred years.
    Minus,
    /// `+`, used by holders aged one hundred years or more.
    Plus,
    /// No separator at all.
    Empty,
}

/// Why an identifier was rejected.
#[derive(Debug, Clone, Copy, PartialEq, Eq, Structural)]
pub enum Reason {
    /// The text does not have the shape of an identifier.
    MalformedFormat,
    /// A four-digit year lies after the reference year.
    YearInFuture,
    /// A four-digit year lies before 1900.
    YearTooOld,
    /// Year, month and day do not form a real calendar date.
    InvalidDate,
    /// The separator does not fit the holder's age; `required` is the one
    /// that the age asks for.
    WrongSeparator { required: Separator },
    /// Fewer than ten digits are available for the check digit.
    TooFewDigits,
    /// The Luhn checksum does not hold.
    InvalidChecksum,
}

/// The human-readable message that goes with each reason.
pub open spec fn reason_message(r: Reason) -> Seq<char> {
    match r {
        Reason::MalformedFormat => "Ogiltigt format"@,
        Reason::YearInFuture => "Ogiltigt årtal i framtiden"@,
        Reason::YearTooOld => "Ogiltigt årtal i dåtiden"@,
        Reason::InvalidDate => "Ogiltigt datum"@,
        Reason::WrongSeparator { required: Separator::Plus } =>
            "Fel separator: '+' krävs för personer 100 år eller äldre"@,
        Reason::WrongSeparator { required: _ } =>
            "Fel separator: '-' krävs för personer under 100 år"@,
        Reason::TooFewDigits => "För få siffror för Luhn-kontroll"@,
        Reason::InvalidChecksum => "Ogiltig kontrollsiffra (Luhn)"@,
    }
}

impl Reason {
    /// The message shown to a user for this reason.
    pub fn message(&self) -> (r: &'static str)
        ensures
            r@ == reason_message(*self),
    {
        match self {
            Reason::MalformedFormat => "Ogiltigt format",
            Reason::YearInFuture => "Ogiltigt årtal i framtiden",
            Reason::YearTooOld => "Ogiltigt årtal i dåtiden",
            Reason::InvalidDate => "Ogiltigt datum",
            Reason::WrongSeparator { required: Separator::Plus } =>
                "Fel separator: '+' krävs för personer 100 år eller äldre",
            Reason::WrongSeparator { required: _ } =>
                "Fel separator: '-' krävs för personer under 100 år",
            Reason::TooFewDigits => "För få siffror för Luhn-kontroll",
            Reason::InvalidChecksum => "Ogiltig kontrollsiffra (Luhn)",
        }
    }
}

} // verus!
