//! Validation of Swedish personal identity numbers (personnummer) and
//! coordination numbers (samordningsnummer).
//!
//! The pipeline parses the identifier, resolves the birth year against a
//! reference date, builds the birth date, enforces the age-dependent
//! separator rule and finally checks the Luhn check digit. Each stage is a
//! verified function whose contract is stated over the spec functions of its
//! module, and `validate::verdict` describes the whole pipeline.

pub mod calendar;
pub mod luhn;
pub mod parse;
pub mod reason;
pub mod validate;
