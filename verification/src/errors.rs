use vstd::prelude::*;

verus! {

/// The unrecoverable startup errors: catalogue input that cannot be read or
/// is malformed, a species name that resolves to nothing, and a duration
/// table lookup for a combination that has no entry.
#[derive(Clone, Copy, Debug, PartialEq, Eq, Structural)]
pub enum FarmError {
    CatalogLoad,
    UnknownSpecies,
    Configuration,
}

impl FarmError {
    /// A human-readable diagnostic for this error kind.
    pub fn message(&self) -> (r: String)
        ensures
            *self == FarmError::CatalogLoad ==> r@ == "catalogue input is missing or malformed"@,
            *self == FarmError::UnknownSpecies ==> r@ == "species name does not resolve to a known seed type"@,
            *self == FarmError::Configuration ==> r@ == "duration table has no entry for this stage"@,
    {
        match self {
            FarmError::CatalogLoad => String::from_str("catalogue input is missing or malformed"),
            FarmError::UnknownSpecies => String::from_str("species name does not resolve to a known seed type"),
            FarmError::Configuration => String::from_str("duration table has no entry for this stage"),
        }
    }
}

} // verus!
