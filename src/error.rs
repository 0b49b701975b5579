//! Errors of the library.
use vstd::prelude::*;

verus! {

/// Why a conversion cannot be planned.
#[derive(Debug, Clone, Copy, PartialEq, Eq, Structural)]
pub enum ConvertError {
    /// The probe tool's answer was missing, unreadable, or lacked a requested field.
    ProbeFailure,
    /// A CRF override is not a non-negative decimal integer.
    InvalidCrf,
    /// A metadata field that the chosen route needs is absent.
    MissingMetadata,
}

} // verus!
