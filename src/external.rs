//! Declarations of the outside types that the library's contracts speak of.

use vstd::prelude::*;

verus! {

/// `log::Level`, read as it is declared in the `log` crate: a field-less enum
/// of five variants, `Error`, `Warn`, `Info`, `Debug` and `Trace`.
#[verifier::external_type_specification]
pub struct ExLogLevel(::log::Level);

/// `log::LevelFilter`, read as it is declared in the `log` crate: a
/// field-less enum of six variants, `Off`, `Error`, `Warn`, `Info`, `Debug`
/// and `Trace`.
#[verifier::external_type_specification]
pub struct ExLogLevelFilter(::log::LevelFilter);

} // verus!
